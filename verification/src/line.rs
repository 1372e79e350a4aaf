//! Assembling data-stream bytes into lines and whitespace-separated tokens.
//!
//! Bytes arrive one at a time. Anything other than the line terminator is
//! accumulated; the terminator closes the line, hands back its tokens and
//! resets the buffer, whether or not any token was found. Turning a token
//! into a numeric value is the caller's business: this module only delimits.

use vstd::prelude::*;

verus! {

/// Byte that ends a record on the data stream.
pub const LINE_TERMINATOR: u8 = 0x0a;

/// True of the byte values that separate tokens: the ASCII whitespace
/// characters (tab, line feed, vertical tab, form feed, carriage return and
/// space).
pub open spec fn is_space(b: u8) -> bool {
    b == 0x09 || b == 0x0a || b == 0x0b || b == 0x0c || b == 0x0d || b == 0x20
}

/// The tokens of `s` when read left to right while a partial token `cur` is
/// in hand: maximal runs of non-space bytes, in order.
pub open spec fn tokens_rec(s: Seq<u8>, cur: Seq<u8>) -> Seq<Seq<u8>>
    decreases s.len(),
{
    if s.len() == 0 {
        if cur.len() == 0 {
            Seq::empty()
        } else {
            seq![cur]
        }
    } else if is_space(s[0]) {
        if cur.len() == 0 {
            tokens_rec(s.drop_first(), Seq::empty())
        } else {
            seq![cur] + tokens_rec(s.drop_first(), Seq::empty())
        }
    } else {
        tokens_rec(s.drop_first(), cur.push(s[0]))
    }
}

/// The whitespace-separated tokens of `s`, in order; each is a maximal
/// non-empty run of non-space bytes.
pub open spec fn tokens_of(s: Seq<u8>) -> Seq<Seq<u8>> {
    tokens_rec(s, Seq::empty())
}

/// The byte sequences of a list of tokens.
pub open spec fn views_of(ts: Seq<Vec<u8>>) -> Seq<Seq<u8>> {
    ts.map_values(|t: Vec<u8>| t@)
}

/// Recognize a token separator.
fn is_space_byte(b: u8) -> (r: bool)
    ensures
        r == is_space(b),
{
    b == 0x09 || b == 0x0a || b == 0x0b || b == 0x0c || b == 0x0d || b == 0x20
}

/// Split `s` into its whitespace-separated tokens.
pub fn tokenize(s: &Vec<u8>) -> (tokens: Vec<Vec<u8>>)
    ensures
        views_of(tokens@) == tokens_of(s@),
{
    let mut tokens: Vec<Vec<u8>> = Vec::new();
    let mut cur: Vec<u8> = Vec::new();
    let mut i: usize = 0;
    proof {
        assert(s@.skip(0) =~= s@);
        assert(views_of(tokens@) + tokens_rec(s@, cur@) =~= tokens_rec(s@, cur@));
    }
    while i < s.len()
        invariant
            i <= s@.len(),
            tokens_of(s@) == views_of(tokens@) + tokens_rec(s@.skip(i as int), cur@),
        decreases s@.len() - i,
    {
        let b = s[i];
        proof {
            assert(s@.skip(i as int)[0] == s@[i as int]);
            assert(s@.skip(i as int).drop_first() =~= s@.skip(i as int + 1));
        }
        if is_space_byte(b) {
            if cur.len() > 0 {
                let ghost done_before = views_of(tokens@);
                let ghost finished = cur@;
                tokens.push(cur);
                cur = Vec::new();
                proof {
                    assert(views_of(tokens@) =~= done_before.push(finished));
                    assert(done_before.push(finished) + tokens_rec(s@.skip(i as int + 1), Seq::empty())
                        =~= done_before + (seq![finished] + tokens_rec(s@.skip(i as int + 1), Seq::empty())));
                }
            } else {
                proof {
                    assert(cur@ =~= Seq::<u8>::empty());
                }
            }
        } else {
            cur.push(b);
        }
        i = i + 1;
    }
    proof {
        assert(s@.skip(s@.len() as int) =~= Seq::<u8>::empty());
    }
    if cur.len() > 0 {
        let ghost done_before = views_of(tokens@);
        let ghost finished = cur@;
        tokens.push(cur);
        proof {
            assert(views_of(tokens@) =~= done_before.push(finished));
            assert(done_before.push(finished) =~= done_before + seq![finished]);
        }
    }
    tokens
}

/// Accumulates data-stream bytes until a line terminator arrives.
pub struct LineAssembler {
    buf: Vec<u8>,
}

impl View for LineAssembler {
    type V = Seq<u8>;

    closed spec fn view(&self) -> Seq<u8> {
        self.buf@
    }
}

impl LineAssembler {
    /// An assembler with an empty line buffer.
    pub fn new() -> (a: LineAssembler)
        ensures
            a@.len() == 0,
    {
        LineAssembler { buf: Vec::new() }
    }

    /// Feed one byte. The terminator closes the line: its tokens come back
    /// and the buffer is reset, whether or not any token was found. Every
    /// other byte is appended and the line stays open.
    pub fn push_byte(&mut self, b: u8) -> (tokens: Option<Vec<Vec<u8>>>)
        ensures
            b == LINE_TERMINATOR ==> tokens is Some
                && views_of(tokens.unwrap()@) == tokens_of(old(self)@)
                && final(self)@.len() == 0,
            b != LINE_TERMINATOR ==> tokens is None && final(self)@ == old(self)@.push(b),
    {
        if b == LINE_TERMINATOR {
            let toks = tokenize(&self.buf);
            self.buf = Vec::new();
            Some(toks)
        } else {
            self.buf.push(b);
            None
        }
    }
}

} // verus!
