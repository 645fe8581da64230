[package]
name = "diwa"
version = "0.1.0"
edition = "2021"
publish = false

[dependencies]
nom = "=7.1.3"
url = "=2.5.8"
scraper = "=0.17.1"
iso8601 = "=0.6.6"
serde_json = "1"
tokio = { version = "1", default-features = false, features = ["rt-multi-thread", "macros", "time", "sync"] }
futures = "0.3"
reqwest = { version = "0.11", default-features = false, features = ["rustls-tls"] }
serenity = { version = "0.11", default-features = false, features = ["builder", "cache", "client", "gateway", "model", "http", "utils", "rustls_backend", "voice", "collector"] }
songbird = { version = "0.3", default-features = false, features = ["serenity-rustls", "driver", "gateway", "builtin-queue"] }
poise = "0.5"
dotenv = "0.15"
