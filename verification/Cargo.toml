[package]
name = "kcg"
version = "0.1.0"
edition = "2021"
publish = false

[dependencies]
im-rc = "*"
serde = { version = "*", features = ["derive"] }
serde_json = "*"
serde_yaml = "*"
linear-map = { version = "*", features = ["serde_impl"] }
structopt = "*"
