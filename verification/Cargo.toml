[package]
name = "onuzglorp_core"
version = "0.1.0"
edition = "2021"
publish = false

[dependencies]
actix-web = "=4.18.1"
chrono = "=0.4.45"
dotenv = "=0.15.0"
mongodb = "=3.9.1"
reqwest = { version = "=0.12.28", features = ["json"] }
serde = { version = "=1.0.229", features = ["derive"] }
serde_json = "=1.0.154"
serenity = { version = "=0.12.5", features = ["collector"] }
sys-info = "=0.9.1"
tokio = { version = "=1.54.1", features = ["macros", "rt-multi-thread", "sync", "time"] }
