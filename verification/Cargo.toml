[package]
name = "pignote"
version = "0.1.0"
edition = "2021"
publish = false

[dependencies]
base64 = "0.22"
chrono = { version = "0.4", default-features = false, features = ["clock"] }
dirs = "6"
log = "0.4"
lopdf = "*"
once_cell = "1"
serde = { version = "1", features = ["derive"] }
tauri = { version = "2", default-features = false }
zip = { version = "0.6", default-features = false, features = ["deflate"] }

[dev-dependencies]
regex = "1"
