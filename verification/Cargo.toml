[package]
name = "tino"
version = "0.1.0"
edition = "2021"
publish = false

[dependencies]
anyhow = "*"
clap = { version = "*", features = ["derive", "env"] }
libc = "*"
nix = { version = "*", features = ["signal", "process", "poll", "fs"] }
once_cell = "*"
tracing = "*"
tracing-subscriber = { version = "*", features = ["env-filter", "fmt"] }
