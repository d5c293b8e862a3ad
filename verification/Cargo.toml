[package]
name = "glog"
version = "0.1.0"
edition = "2021"
publish = false

[dependencies]
backtrace = "*"
chrono = "*"
gethostname = "*"
log = "*"
nix = { version = "*", features = ["process", "pthread"] }
once_cell = "*"
termcolor = "*"
thread_local = "*"
whoami = "*"
