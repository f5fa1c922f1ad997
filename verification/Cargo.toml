[package]
name = "youtube_downloader"
version = "0.1.0"
edition = "2021"
publish = false

[dependencies]
clap = "=4.6.7"
colored = "=2.2.0"
rand = "=0.8.8"
regex-syntax = { version = "=0.8.11", features = ["unicode-perl"] }
rustyline = "=14.0.0"
tokio = { version = "=1.54.1", features = ["rt", "time"] }

[dev-dependencies]
regex = "=1.13.1"
