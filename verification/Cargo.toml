[package]
name = "eh"
version = "0.1.0"
edition = "2021"
publish = false

[dependencies]
serde_json = "1"
serde = { version = "1", features = ["derive"] }
toml = "*"
clap = { version = "4", features = ["derive"] }
clap_complete = "4"
dialoguer = "*"
dirs = "*"
tempfile = "3"
walkdir = "2"
textwrap = "*"
thiserror = "*"
yansi = "1"
spam-db = "*"

[dev-dependencies]
tempfile = "3"
