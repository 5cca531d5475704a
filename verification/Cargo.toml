[package]
name = "ticket_importer"
version = "0.1.0"
edition = "2021"
publish = false

[dependencies]
anyhow = "*"
base64 = "*"
calamine = "*"
chrono = "*"
chrono-tz = "*"
reqwest = { version = "*", features = ["json", "rustls-tls"] }
serde = { version = "*", features = ["derive"] }
serde_json = "*"
structopt = "*"
tokio = { version = "*", features = ["macros", "rt-multi-thread"] }
toml = "*"
