[package]
name = "mu_cli"
version = "0.1.0"
edition = "2021"
publish = false

[dependencies]
candid = "*"
candid_parser = "*"
serde_json = "*"
serde = { version = "*", features = ["derive"] }
toml = "*"
clap = { version = "*", features = ["derive"] }
tokio = { version = "*", features = ["full"] }
futures = "*"
notify = "*"
colored = "*"
terminal_size = "*"
handlebars = "*"
