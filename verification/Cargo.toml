[package]
name = "paraphrase_relay"
version = "0.1.0"
edition = "2021"
publish = false

[dependencies]
serde_json = "*"
serde = { version = "*", features = ["derive"] }
reqwest = { version = "*", default-features = false }
actix-web = { version = "*", default-features = false, features = ["macros"] }
actix-cors = "*"
dotenv = "*"

[dev-dependencies]
serde_json = "*"
