[package]
name = "irc_client"
version = "0.1.0"
edition = "2021"
publish = false

[dependencies]
irc = "0.13"
serde = { version = "1", features = ["derive"] }
serde_derive = "1"
serde_json = "1"
futures = "0.1"
tokio-core = "0.1"
diesel = { version = "1.4", features = ["postgres"] }
dotenv = "0.15"
