[package]
name = "iron_exec"
version = "0.1.0"
edition = "2021"
publish = false

[dependencies]
crossbeam = "*"
nix = { version = "*", features = ["signal"] }
uuid = { version = "*", features = ["v4"] }
threadpool = "*"
