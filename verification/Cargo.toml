[package]
name = "chat_relay"
version = "0.1.0"
edition = "2021"
publish = false

[dependencies]
serde_json = "*"
reqwest = "*"
tokio = "*"
slack-flows = "*"
openai-flows = "*"
flowsnet-platform-sdk = "*"
log = "*"
dotenv = "*"
