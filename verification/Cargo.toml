[package]
name = "shipit"
version = "0.1.0"
edition = "2021"
publish = false

[dependencies]
serde_json = "=1.0.151"
clap = { version = "=4.6.7", features = ["derive"] }
confy = "=2.0.0"
git2 = "=0.21.0"
gitlab = "=0.1904.0"
octocrab = "=0.43.0"
reqwest = { version = "=0.13.5", features = ["json"] }
serde = { version = "=1.0.229", features = ["derive"] }
tokio = { version = "=1.53.2", features = ["macros", "rt-multi-thread"] }
toml = "=0.9.12"
