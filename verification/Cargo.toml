[package]
name = "mkrpki"
version = "0.1.0"
edition = "2021"
publish = false

[dependencies]
rpki = { version = "0.9", features = ["softkeys"] }
chrono = "0.4"
base64 = "0.13"
openssl = "0.10"
structopt = "0.3"
unwrap = "1"
