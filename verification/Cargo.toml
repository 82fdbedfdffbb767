[package]
name = "voice_intent"
version = "0.1.0"
edition = "2021"
publish = false

[dependencies]
actix-web = "4"
env_logger = "*"
fuzzy_match_flex = "*"
hound = "3"
log = "0.4"
tokio = { version = "1", features = ["macros", "process", "rt-multi-thread", "sync"] }
whisper-rs = "*"
