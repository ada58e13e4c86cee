[package]
name = "dispatch"
version = "0.1.0"
edition = "2021"
publish = false

[dependencies]
anyhow = "1"
chrono = "0.4"
crossterm = "0.28"
cursive = { version = "0.21", default-features = false, features = ["crossterm-backend"] }
dotenv = "0.15"
futures-util = { version = "0.3", features = ["sink"] }
jwt-simple = { version = "0.12", default-features = false, features = ["pure-rust"] }
serde = { version = "1", features = ["derive"] }
serde_json = "1"
sqlx = { version = "0.8", default-features = false, features = ["runtime-tokio", "postgres", "derive"] }
tokio = { version = "1", features = ["full"] }
tokio-tungstenite = "0.24"
ureq = { version = "2", default-features = false, features = ["json"] }
uuid = { version = "1", features = ["v4"] }
