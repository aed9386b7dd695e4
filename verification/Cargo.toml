[package]
name = "cap-std-ext"
version = "0.1.0"
edition = "2021"
publish = false

[dependencies]
cap-std = "=4.0.3"
cap-tempfile = "=4.0.3"
io-lifetimes = "=3.0.1"
rustix = { version = "=1.1.5", features = ["fs", "process", "pipe"] }

[dev-dependencies]
anyhow = "1"
