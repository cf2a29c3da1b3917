[package]
name = "rrwidget"
version = "0.1.0"
edition = "2021"
publish = false

[dependencies]
async-channel = "*"
base64 = "*"
confy = "*"
html-escape = "*"
lru = "*"
serde = { version = "*", features = ["derive"] }
time-humanize = "*"
ureq = { version = "2", features = ["json"] }
zbus = "*"
