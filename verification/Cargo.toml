[package]
name = "streamplot"
version = "0.1.0"
edition = "2021"
publish = false

[dependencies]
float-pretty-print = "*"
structopt = "0.3"
termion = "1.5"
tui = "0.6"
