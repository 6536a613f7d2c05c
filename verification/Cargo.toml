[package]
name = "lteman"
version = "0.1.0"
edition = "2021"
publish = false

[dependencies]
clap = { version = "*", features = ["derive"] }
cmd_lib = "*"
prettytable-rs = "*"
serde = "*"
serde_derive = "*"
serde_json = "*"
