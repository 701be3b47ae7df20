[package]
name = "minibox"
version = "0.1.0"
edition = "2021"
publish = false

[dependencies]
anyhow = "=1.0.104"
clap = { version = "=4.6.7", features = ["derive"] }
flate2 = "=1.1.10"
futures = "=0.3.34"
libc = "=0.2.190"
reqwest = { version = "=0.13.5", default-features = false, features = ["json", "query", "stream"] }
serde = { version = "=1.0.229", features = ["derive"] }
tar = "=0.4.46"
tempfile = "=3.27.0"
tokio = { version = "=1.53.2", features = ["macros", "rt-multi-thread"] }
