[package]
name = "rustybot"
version = "0.1.0"
edition = "2021"
publish = false

[dependencies]
async-openai = { version = "=0.42.1", features = ["chat-completion"] }
chrono = "=0.4.45"
config = "=0.15.27"
dotenvy = "=0.15.7"
log = "=0.4.34"
log4rs = "=1.4.0"
tokio = { version = "=1.53.2", features = ["macros", "rt-multi-thread"] }
