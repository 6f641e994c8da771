[package]
name = "csearch"
version = "0.1.0"
edition = "2021"
publish = false

[dependencies]
tantivy = "=0.26.2"
axum = "=0.5.17"
futures = "=0.3.34"
html2text = "=0.6.0"
hyper = "=0.14.32"
prometheus-client = "=0.16.0"
tokio = { version = "=1.53.2", features = ["macros", "rt-multi-thread"] }
tower-http = { version = "=0.3.5", features = ["fs", "set-header"] }
tracing = "=0.1.44"
tracing-subscriber = "=0.3.23"
