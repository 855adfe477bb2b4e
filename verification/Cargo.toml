[package]
name = "chicken-door"
version = "0.1.0"
edition = "2021"
publish = false

[dependencies]
axum = "=0.7.9"
chrono = { version = "=0.4.45", features = ["serde"] }
icondata = "=0.7.0"
leptos = { version = "=0.7.8", features = ["ssr"] }
leptos_axum = "=0.7.8"
leptos_meta = { version = "=0.7.8", features = ["ssr"] }
leptos_router = { version = "=0.7.8", features = ["ssr"] }
notify = "=8.2.0"
rppal = "=0.22.1"
serde = { version = "=1.0.229", features = ["derive"] }
thaw = { version = "=0.4.7", features = ["ssr"] }
thiserror = "=2.0.21"
tokio = { version = "=1.54.1", features = ["rt-multi-thread", "macros", "time"] }
toml = "=0.8.23"
