[package]
name = "client_core"
version = "0.1.0"
edition = "2021"
publish = false

[dependencies]
anyhow = "=1.0.104"
clap = { version = "=4.6.7", features = ["derive", "cargo"] }
clap_complete = "=4.6.11"
color-eyre = "=0.6.5"
crossterm = "=0.29.0"
hex = "=0.4.3"
home = "=0.5.12"
inquire = "=0.9.4"
ratatui = "=0.30.2"
reqwest = { version = "=0.13.5", features = ["form"] }
serde_json = "=1.0.154"
sha1 = "=0.11.0"
tabwriter = "=1.4.1"
tl = "=0.7.8"
tokio = { version = "=1.54.1", features = ["full"] }
tracing = "=0.1.44"
tracing-subscriber = "=0.3.23"
tui-input = "=0.15.5"
tui-scrollview = "=0.6.8"
