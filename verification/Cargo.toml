[package]
name = "surveilr_ingest"
version = "0.1.0"
edition = "2021"
publish = false

[dependencies]
regex = "*"
sha1 = "*"
serde_json = "*"
vfs = "*"
walkdir = "*"
ignore = "*"
is_executable = "*"
serde = { version = "*", features = ["derive"] }
clap = { version = "*", features = ["derive"] }
