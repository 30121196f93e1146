[package]
name = "echo_core"
version = "0.1.0"
edition = "2021"
publish = false

[dependencies]
jsonwebtoken = { version = "=11.1.0", features = ["rust_crypto"] }
serde = { version = "=1.0.229", features = ["derive"] }
serde_json = "=1.0.151"
actix-web = "=4.15.0"
futures = "=0.3.34"
bcrypt = "=0.19.3"
uuid = { version = "=1.27.0", features = ["v4"] }
chrono = "=0.4.45"
