[package]
name = "ws_session"
version = "0.1.0"
edition = "2021"
publish = false

[dependencies]
axum = { version = "0.8", features = ["ws"] }
axum-extra = { version = "0.10", features = ["typed-header"] }
futures = "0.3"
tokio = { version = "1", features = ["macros", "rt-multi-thread", "net", "time"] }
