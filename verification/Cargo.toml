[package]
name = "bakeit"
version = "0.1.0"
edition = "2021"
publish = false

[dependencies]
curl = "*"
docopt = "*"
rust-ini = "*"
rustc-serialize = "*"
serde = { version = "*", features = ["derive"] }
url = "*"
