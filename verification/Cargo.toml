[package]
name = "knock"
version = "0.1.0"
edition = "2021"
publish = false

[dependencies]
sled = "=0.34.7"
async-openai = { version = "=0.42.1", features = ["responses"] }
clap = { version = "=4.6.7", features = ["derive"] }
colored = "=3.1.1"
dotenvy = "=0.15.7"
tokio = { version = "=1.53.2", features = ["macros", "rt-multi-thread"] }
serde_json = "=1.0.151"
reqwest = { version = "=0.13.5", default-features = false, features = ["json"] }
