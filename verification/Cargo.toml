[package]
name = "mailer"
version = "0.1.0"
edition = "2021"
publish = false

[dependencies]
anyhow = "=1.0.104"
reqwest = { version = "=0.13.5", default-features = false }
resend-rs = "=0.35.0"
secrecy = "=0.10.3"

[dev-dependencies]
serde_json = "=1.0.154"
