[package]
name = "ghsec"
version = "0.1.0"
edition = "2021"
publish = false

[dependencies]
glob = "=0.3.4"
regex = "=1.13.1"
anyhow = "=1.0.104"
secure-string = "=0.3.0"
dotenv = "=0.15.0"
octocrab = { version = "=0.43.0", features = ["stream"] }
tokio = { version = "=1.53.2", features = ["macros", "rt-multi-thread"] }
futures-util = "=0.3.34"
clap = { version = "=4.6.7", features = ["derive", "env"] }
serde = { version = "=1.0.229", features = ["derive"] }
tracing = "=0.1.44"
tracing-subscriber = { version = "=0.3.23", features = ["env-filter", "json"] }
