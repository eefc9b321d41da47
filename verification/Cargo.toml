[package]
name = "pastebin"
version = "0.1.0"
edition = "2021"
publish = false

[dependencies]
ansi_term = "*"
atty = "*"
chrono = "*"
clap = "*"
reqwest = { version = "*", default-features = false, features = ["blocking", "multipart"] }
url = "*"
