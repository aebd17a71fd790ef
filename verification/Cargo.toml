[package]
name = "ticket_store"
version = "0.1.0"
edition = "2021"
publish = false

[dependencies]
anyhow = "1"
serde = { version = "1", features = ["derive"] }
thiserror = "1"
tide = "0.16"
tokio = { version = "1", features = ["macros", "net", "rt-multi-thread", "sync"] }
