[package]
name = "ente"
version = "0.1.0"
edition = "2021"
publish = false

[dependencies]
rustbox = "0.9"
docopt = "0.7"
rustc-serialize = "0.3"
slog = "1"
slog-scope = "0.2"
slog-stream = "1"
time = "0.1"
error-chain = "0.7"
