[package]
name = "static_routes"
version = "0.1.0"
edition = "2021"
publish = false

[dependencies]
rand = "*"
axum = "*"
tokio = { version = "*", features = ["macros", "rt-multi-thread", "net"] }
tower = { version = "*", features = ["util"] }
serde = { version = "*", features = ["derive"] }
anyhow = "*"

[dev-dependencies]
serde_json = "*"
