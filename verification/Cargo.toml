[package]
name = "chirpstack_packet_multiplexer"
version = "0.1.0"
edition = "2021"
publish = false

[dependencies]
anyhow = "1"
axum = "*"
clap = { version = "4", features = ["derive"] }
handlebars = "*"
hex = "0.4"
lrwn_filters = { version = "*", features = ["serde"] }
prometheus-client = "*"
serde = { version = "1", features = ["derive"] }
signal-hook = "*"
tokio = { version = "1", features = ["macros", "rt-multi-thread", "net", "sync", "time"] }
toml = "*"
tracing = "0.1"
tracing-subscriber = "*"
