[package]
name = "telegram_search"
version = "0.1.0"
edition = "2021"
publish = false

[dependencies]
chrono = { version = "=0.4.45", default-features = false, features = ["alloc"] }
dptree = "=0.3.0"
elasticsearch = { version = "=8.5.0-alpha.1", default-features = false, features = ["rustls-tls"] }
futures = "=0.3.34"
log = "=0.4.34"
once_cell = "=1.21.4"
pretty_env_logger = "=0.5.0"
serde = { version = "=1.0.229", features = ["derive"] }
serde_json = "=1.0.151"
takecell = "=0.1.1"
teloxide = { version = "=0.12.2", default-features = false, features = ["macros", "rustls", "ctrlc_handler"] }
tokio = { version = "=1.53.2", features = ["macros", "rt-multi-thread"] }
