//! The scheduling decision of the main loop.
//!
//! Each iteration the loop may hold at most one freshly dequeued byte from the
//! control stream and one from the data stream. The control stream is
//! consulted first: a pending shutdown request wins over any amount of queued
//! data, so no further frame is drawn once the sentinel has been seen.

use vstd::prelude::*;

verus! {

/// Byte on the control stream that requests shutdown (ASCII ETX, Ctrl-C in
/// raw terminal mode).
pub const CONTROL_SENTINEL: u8 = 3;

/// What the main loop should do with the bytes it just polled.
#[derive(PartialEq, Eq, Structural, Clone, Copy, Debug)]
pub enum LoopDecision {
    /// The control stream delivered the shutdown sentinel: exit the loop;
    /// nothing more is drawn.
    Quit,
    /// No shutdown was requested and a data byte is available: hand it to the
    /// line assembler.
    ProcessData(u8),
    /// Neither stream had anything of interest this iteration.
    Wait,
}

/// Decide one iteration of the main loop. Shutdown takes priority: whenever
/// the control byte is the sentinel the decision is `Quit`, however many data
/// bytes may still be queued; any other control byte is ignored.
pub fn decide(control: Option<u8>, data: Option<u8>) -> (d: LoopDecision)
    ensures
        d == LoopDecision::Quit <==> control == Some(CONTROL_SENTINEL),
        control != Some(CONTROL_SENTINEL) && data is Some ==> d == LoopDecision::ProcessData(data->0),
        control != Some(CONTROL_SENTINEL) && data is None ==> d == LoopDecision::Wait,
{
    match control {
        Some(b) => {
            if b == CONTROL_SENTINEL {
                return LoopDecision::Quit;
            }
        }
        None => {}
    }
    match data {
        Some(b) => LoopDecision::ProcessData(b),
        None => LoopDecision::Wait,
    }
}

} // verus!
