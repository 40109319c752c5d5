[package]
name = "stt"
version = "0.1.0"
edition = "2021"
publish = false

[dependencies]
anyhow = "1"
async-trait = "0.1"
hound = "3.5"
thiserror = "1"
tokio = { version = "1", features = ["macros", "rt-multi-thread"] }
whisper-rs = "0.14"
