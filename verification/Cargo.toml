[package]
name = "promptnotes"
version = "0.1.0"
edition = "2021"
publish = false

[dependencies]
time = { version = "0.3", features = ["formatting", "parsing"] }
sha2 = "0.10"
hex = "0.4"
serde = { version = "1", features = ["derive"] }
thiserror = "1"
log = "0.4"

[dev-dependencies]
tempfile = "3"
