[package]
name = "todo_app"
version = "0.1.0"
edition = "2021"
publish = false

[dependencies]
uuid = { version = "1", features = ["v4", "serde"] }
chrono = { version = "0.4", features = ["serde"] }
serde = { version = "1", features = ["derive"] }
serde_json = "1"
axum = "0.7"
tokio = { version = "1", features = ["macros", "rt-multi-thread", "net"] }
tower-http = { version = "0.5", features = ["cors"] }
tracing = "0.1"
tracing-subscriber = "0.3"
sqlx = { version = "0.7", default-features = false, features = ["runtime-tokio", "sqlite", "chrono", "uuid", "migrate"] }
dotenvy = "0.15"
thiserror = "1"
reqwest = { version = "0.12", default-features = false, features = ["json"] }
dioxus = { version = "0.6", features = ["web", "router"] }
gloo-storage = "0.3"
log = "0.4"
