[package]
name = "twir_scraper"
version = "0.1.0"
edition = "2021"
publish = false

[dependencies]
select = "*"
reqwest = { version = "*", default-features = false, features = ["blocking", "rustls-tls"] }
rayon = "*"
csv = "*"
serde = { version = "*", features = ["derive"] }
serde_derive = "*"
clap = "*"
