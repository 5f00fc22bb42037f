[package]
name = "audit_agent"
version = "0.1.0"
edition = "2021"
publish = false

[dependencies]
serde = { version = "1", features = ["derive"] }
serde_json = { version = "1", features = ["preserve_order"] }
genai = "0.1"
tokio = { version = "1", features = ["rt-multi-thread", "macros"] }
actix-web = "4"
actix-cors = "0.7"
shuttle-actix-web = "*"
shuttle-runtime = "*"
validator = { version = "*", features = ["derive"] }
