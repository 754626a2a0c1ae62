[package]
name = "yt_fetch"
version = "0.1.0"
edition = "2021"
publish = false

[dependencies]
url = "2"
serde_json = "1"
clap = { version = "4", features = ["derive"] }
tokio = { version = "1", features = ["macros", "rt-multi-thread", "process", "io-util", "fs"] }
indicatif = "0.17"
home = "0.5"
directories = "5"
