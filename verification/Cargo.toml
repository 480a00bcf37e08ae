[package]
name = "pgn2tnot"
version = "0.1.0"
edition = "2021"
publish = false

[dependencies]
shakmaty = "0.27"
pgn-reader = "0.26"
clap = { version = "4", features = ["derive"] }
glob = "0.3"
itertools = "*"
zzz = "*"
