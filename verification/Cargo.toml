[package]
name = "rdict"
version = "0.1.0"
edition = "2021"
publish = false

[dependencies]
scraper = "=0.29.0"
owo-colors = "=4.4.0"
url = "=2.5.8"
html-escape = "=0.3.0"
reqwest = { version = "=0.12.28", default-features = false, features = ["rustls-tls"] }
tokio = { version = "=1.54.1", features = ["macros", "rt-multi-thread"] }
sqlx = { version = "=0.8.6", default-features = false, features = ["sqlite", "runtime-tokio", "migrate"] }
serde = { version = "1", features = ["derive"] }
serde_json = "=1.0.154"
clap = { version = "=4.6.7", features = ["derive"] }
clap_complete = "=4.6.11"
directories-next = "=2.0.0"
rustyline = "=19.0.0"
indicatif = "=0.18.6"
console = "=0.16.6"
log = "0.4"
env_logger = "=0.11.11"
anyhow = "=1.0.104"
thiserror = "=2.0.21"
ratatui = { version = "=0.30.2", default-features = false, features = ["crossterm"] }
crossterm = "=0.29.0"
