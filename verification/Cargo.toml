[package]
name = "ani-l"
version = "0.1.0"
edition = "2021"
publish = false

[dependencies]
anyhow = "=1.0.104"
chrono = { version = "=0.4.45", default-features = false, features = ["std", "clock", "serde"] }
clap = { version = "=4.6.7", default-features = false, features = ["std", "derive", "help", "usage", "error-context"] }
crossterm = "=0.29.0"
directories = "=5.0.1"
image = { version = "=0.25.10", default-features = false, features = ["png", "jpeg"] }
rand = "=0.8.8"
ratatui = { version = "=0.30.2", default-features = false, features = ["crossterm"] }
ratatui-image = "=1.0.5"
reqwest = { version = "=0.11.27", default-features = false, features = ["json", "rustls-tls"] }
serde = { version = "=1.0.229", features = ["derive"] }
serde_json = "=1.0.154"
tokio = { version = "=1.54.1", features = ["rt-multi-thread", "macros", "io-util", "net", "time", "sync"] }
toml = "=0.8.23"
urlencoding = "=2.1.3"
