[package]
name = "bot_utils"
version = "0.1.0"
edition = "2021"
publish = false

[dependencies]
chrono = "0.4"
chrono-tz = "*"
dotenv = "0.15"
once_cell = "1"
poise = "0.6"
regex = "1"
tokio = { version = "1", features = ["macros", "rt-multi-thread"] }
unescape = "0.1"
