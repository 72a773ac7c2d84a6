[package]
name = "emacs_remote"
version = "0.1.0"
edition = "2021"
publish = false

[dependencies]
clap = "2"
dirs = "*"
rmp-serde = "*"
rmpv = { version = "*", features = ["with-serde"] }
serde = { version = "1", features = ["derive"] }
serde_json = "1"
