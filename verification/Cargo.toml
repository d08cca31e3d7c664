[package]
name = "auto_gippity"
version = "0.1.0"
edition = "2021"
publish = false

[dependencies]
ai_functions = "0.1"
async-trait = "0.1"
crossterm = "0.27"
dotenv = "0.15"
reqwest = { version = "0.11", default-features = false, features = ["json", "rustls-tls"] }
serde = { version = "1", features = ["derive"] }
serde_json = "1"
tokio = { version = "1", features = ["macros", "rt-multi-thread", "time"] }
