[package]
name = "tuikk"
version = "0.1.0"
edition = "2021"
publish = false

[dependencies]
bollard = "=0.21.1"
serde = { version = "=1.0.229", features = ["derive"] }
toml = "=1.1.8"
directories = "=6.0.0"
tracing = "=0.1.44"
tracing-subscriber = { version = "=0.3.23", features = ["env-filter"] }
tracing-appender = "=0.2.5"
color-eyre = "=0.6.5"
tokio = { version = "=1.54.1", features = ["macros", "rt-multi-thread"] }
thiserror = "=2.0.21"
syn = { version = "=3.0.9", features = ["full"] }
quote = "=1.0.47"
proc-macro2 = "=1.0.107"
