[package]
name = "mirror_core"
version = "0.1.0"
edition = "2021"
rust-version = "1.95"
publish = false

[dependencies]
mime_to_ext = "=0.1.14"
takecell = "=0.1.1"
teloxide = "=0.11.3"
serenity = "=0.11.7"
tokio = { version = "1", features = ["rt-multi-thread", "macros"] }
futures = "0.3"
log = "0.4"
