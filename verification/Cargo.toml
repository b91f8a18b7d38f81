[package]
name = "fetch_archive"
version = "0.1.0"
edition = "2021"
publish = false

[dependencies]
url = "*"
sanitize-filename = "*"
zip = "*"
futures-channel = "*"
actix-web = { version = "*", default-features = false }
reqwest = { version = "*", default-features = false, features = ["stream"] }
tokio = { version = "*", features = ["rt-multi-thread", "macros", "fs", "time", "io-util"] }
tokio-util = { version = "*", features = ["io"] }
futures-util = "*"
tera = { version = "*", default-features = false }
serde = { version = "*", features = ["derive"] }
