[package]
name = "tapeview"
version = "0.1.0"
edition = "2021"
publish = false

[dependencies]
image = { version = "*", default-features = false }
ratatui = "*"
ratatui-image = { version = "*", default-features = false, features = ["crossterm"] }
crossterm = { version = "*", features = ["event-stream"] }
tokio = { version = "*", features = ["full"] }
futures = "*"
clap = { version = "*", features = ["derive"] }
color-eyre = "*"
thiserror = "*"
tracing = "*"
tracing-chrome = "*"
tracing-subscriber = "*"
console-subscriber = "*"
