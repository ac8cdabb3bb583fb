[package]
name = "hammer-sickle"
version = "0.1.0"
edition = "2021"
publish = false

[dependencies]
clap = { version = "4", features = ["derive", "env"] }
clap-verbosity-flag = "*"
rayon = "*"
reqwest = { version = "0.12", default-features = false, features = ["blocking", "json"] }
serde = { version = "1", features = ["derive"] }
serde_json = "1"
thiserror = "*"
toml = "*"
tracing = "*"
tracing-subscriber = { version = "*", features = ["json"] }
