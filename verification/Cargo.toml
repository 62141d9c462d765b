[package]
name = "m8_fsto"
version = "0.1.0"
edition = "2021"
publish = false

[dependencies]
clap = { version = "4", features = ["derive"] }
clap-num = "1"
glob = "0.3"
m8-file-parser = "*"
m8-files = "*"
