[package]
name = "sisters_salon"
version = "0.1.0"
edition = "2021"
publish = false

[dependencies]
bcrypt = "*"
chrono = "*"
keyring = "3"
libc = "*"
rusqlite = { version = "*", features = ["bundled"] }
rust_xlsxwriter = "*"
serde = { version = "*", features = ["derive"] }
serde_json = "*"
uuid = { version = "*", features = ["v4"] }
