[package]
name = "map_search"
version = "0.1.0"
edition = "2021"
publish = false

[dependencies]
serde = { version = "*", features = ["derive"] }
serde_json = "*"
sha2 = "*"
url = "*"
chrono = "*"
base64 = "*"
indexmap = "*"
toml = "*"
clap = { version = "*", features = ["derive"] }
wax = "*"
tokio = { version = "*", features = ["full"] }
futures = "*"
chromiumoxide = { version = "*", default-features = false, features = ["tokio-runtime"] }
colored = "*"
once_cell = "*"
