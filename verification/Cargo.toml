[package]
name = "oauth2_broker"
version = "0.1.0"
edition = "2021"
publish = false

[dependencies]
async-lock = "*"
base64 = "*"
oauth2 = { version = "*", default-features = false }
parking_lot = "*"
rand = "*"
reqwest = { version = "*", default-features = false }
serde = { version = "*", features = ["derive"] }
serde_json = "*"
serde_path_to_error = "*"
sha2 = "*"
thiserror = "*"
time = { version = "*", features = ["parsing", "formatting"] }
url = "*"
