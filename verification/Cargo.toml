[package]
name = "daemonizable"
version = "0.1.0"
edition = "2021"
publish = false

[dependencies]
command-fds = "*"
libc = "0.2"
nix = { version = "*", features = ["fs", "poll", "socket", "process", "signal", "user", "uio", "time"] }
postcard = { version = "1", features = ["use-std"] }
proc-macro2 = "1"
quote = "1"
serde = { version = "1", features = ["derive"] }
syn = { version = "*", features = ["full", "parsing", "printing"] }
thiserror = "*"
