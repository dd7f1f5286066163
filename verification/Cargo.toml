[package]
name = "gradescope_calendar"
version = "0.1.0"
edition = "2021"
publish = false

[dependencies]
scraper = "=0.29.0"
url = { version = "=2.5.8", features = ["serde"] }
icalendar = "=0.17.15"
chrono = "=0.4.45"
axum = "=0.8.9"
tokio = { version = "=1.54.1", features = ["full"] }
reqwest = "=0.13.5"
figment = { version = "=0.10.19", features = ["env", "json", "yaml", "toml"] }
serde = { version = "=1.0.229", features = ["derive"] }
color-eyre = "=0.6.5"
