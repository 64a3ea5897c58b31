[package]
name = "oauth_server"
version = "0.1.0"
edition = "2021"
publish = false

[dependencies]
argon2 = "0.5"
uuid = { version = "1", features = ["v4"] }
form_urlencoded = "1"
serde = { version = "1", features = ["derive"] }
axum = "0.8"
axum-extra = { version = "0.10", features = ["typed-header"] }
tokio = { version = "1", features = ["macros", "rt-multi-thread", "net", "signal"] }
tower = "0.5"
