[package]
name = "intent_client"
version = "0.1.0"
edition = "2021"
publish = false

[dependencies]
rand = "0.8"
solana-program = "1.18"
spl-token = "4"
spl-associated-token-account = "2"
anyhow = "1"
clap = "4"
serde = { version = "1", features = ["derive"] }
tokio = { version = "1", features = ["macros", "rt-multi-thread", "time"] }
strum = { version = "0.26", features = ["derive"] }
strum_macros = "0.26"
dotenv = "0.15"
reqwest = { version = "0.11", default-features = false, features = ["json"] }
