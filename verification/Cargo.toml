[package]
name = "stec_shop"
version = "0.1.0"
edition = "2021"
publish = false

[dependencies]
aes-gcm-siv = "=0.11.1"
hex = "=0.4.3"
uuid = { version = "=1.29.1", features = ["v4"] }
serde = { version = "=1.0.229", features = ["derive"] }
serde_json = "=1.0.154"
anyhow = "=1.0.104"
async-trait = "=0.1.92"
log = "=0.4.35"
rocket = { version = "=0.5.2", features = ["secrets", "json"] }
rocket_oauth2 = "=0.5.0"
reqwest = { version = "=0.11.27", default-features = false, features = ["json", "rustls-tls"] }
clap = { version = "4", features = ["cargo"] }
image = { version = "0.24", default-features = false, features = ["png", "jpeg"] }
rocket_dyn_templates = { version = "0.2", features = ["tera"] }
sendgrid = "0.27"
