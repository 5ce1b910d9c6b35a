[package]
name = "gfr"
version = "0.1.0"
edition = "2021"
publish = false

[dependencies]
anyhow = "1"
clap = { version = "4", features = ["derive"] }
dirs = "*"
grep-printer = "0.2"
grep-regex = "0.1"
grep-searcher = "0.1"
ignore = "0.4"
owo-colors = "4"
reqwest = { version = "0.12", default-features = false, features = ["json", "rustls-tls"] }
semver = "1"
serde = { version = "1", features = ["derive"] }
serde_json = "1"
termcolor = "1"
tokio = { version = "1", features = ["macros", "rt-multi-thread"] }
