[package]
name = "trans_rights_bot"
version = "0.1.0"
edition = "2021"
publish = false

[dependencies]
anyhow = "1"
chrono = { version = "0.4", default-features = false, features = ["clock", "std"] }
dotenv = "0.15"
rand = "0.8"
tokio = { version = "1", features = ["macros", "rt-multi-thread"] }
