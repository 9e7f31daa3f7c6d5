[package]
name = "cdn"
version = "0.1.0"
edition = "2021"
publish = false

[dependencies]
flate2 = "*"
brotli2 = "*"
zstd = "*"
axum = "*"
tokio = { version = "*", features = ["rt-multi-thread", "macros", "net", "sync"] }
tower-http = { version = "*", features = ["fs", "cors", "set-header", "catch-panic"] }
clap = { version = "*", features = ["derive", "env"] }
tracing = "*"
tracing-subscriber = { version = "*", features = ["env-filter"] }
once_cell = "*"
