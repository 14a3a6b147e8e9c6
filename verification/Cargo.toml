[package]
name = "qr_styler"
version = "0.1.0"
edition = "2021"
publish = false

[dependencies]
qrcode-generator = "=4.1.9"
image = "=0.24.9"
colorgrad = "=0.6.2"
ic-cdk = "=0.20.3"
candid = "=0.10.37"
serde = "1"
