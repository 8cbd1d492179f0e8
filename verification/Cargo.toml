[package]
name = "uplate"
version = "0.1.0"
edition = "2021"
publish = false

[dependencies]
anyhow = "1"
chrono = { version = "0.4", features = ["serde"] }
clap = { version = "4", features = ["derive"] }
cliclack = "*"
ctrlc = "3"
json_comments = "0.2"
serde = { version = "1", features = ["derive"] }
serde_json = "1"
tempfile = "3"
url = "2"
walkdir = "2"
