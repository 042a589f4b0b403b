[package]
name = "maimai-search"
version = "0.1.0"
edition = "2021"
publish = false

[dependencies]
serde_json = "1"
prettytable-rs = "0.10"
clap = { version = "4", features = ["derive"] }
exitcode = "1"
reqwest = { version = "0.11", default-features = false, features = ["blocking", "json", "rustls-tls"] }
