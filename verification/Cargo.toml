[package]
name = "feed_courier"
version = "0.1.0"
edition = "2021"
publish = false

[dependencies]
opml = "=1.1.6"
rss = { version = "=2.1.2", default-features = false }
rand = "=0.8.8"
dotenv = "0.15"
tokio = { version = "1", features = ["macros", "rt-multi-thread", "time"] }
reqwest = { version = "0.11", default-features = false, features = ["rustls-tls"] }
sqlx = { version = "0.7", default-features = false, features = ["postgres", "runtime-tokio-rustls"] }
teloxide = { version = "0.12", default-features = false, features = ["rustls"] }
chatgpt_rs = "1"
takecell = "=0.1.1"
