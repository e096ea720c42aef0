[package]
name = "crawler_core"
version = "0.1.0"
edition = "2021"
publish = false

[dependencies]
url = "*"
scraper = "*"
robotstxt = "*"
dashmap = "*"
reqwest = { version = "*", default-features = false, features = ["rustls-tls"] }
tokio = { version = "*", features = ["rt-multi-thread", "macros", "sync", "time"] }
diesel = { version = "*", features = ["postgres", "r2d2"] }
dotenvy = "*"
