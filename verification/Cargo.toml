[package]
name = "mail_autoconfig"
version = "0.1.0"
edition = "2021"
publish = false

[dependencies]
arc-swap = "1"
clap = { version = "3", features = ["derive"] }
color-eyre = "0.6"
email_address = "0.2"
eyre = "0.6"
form_urlencoded = "1"
futures = "0.3"
hyper = { version = "0.14", features = ["full"] }
notify = "4"
openssl = "0.10"
rxml = "0.8"
serde = { version = "1", features = ["derive"] }
tera = "1"
tokio = { version = "1", features = ["full"] }
tokio-util = { version = "0.7", features = ["io"] }
toml = "0.5"
tracing = "0.1"
tracing-subscriber = "0.3"
uuid = { version = "1", features = ["v4", "serde"] }
