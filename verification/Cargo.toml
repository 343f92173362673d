[package]
name = "fafa"
version = "0.1.0"
edition = "2021"
publish = false

[dependencies]
anstream = "=0.6.21"
anyhow = "=1.0.104"
argon2 = "=0.6.0"
base64 = "=0.22.1"
bcrypt = "=0.19.3"
blake3 = { version = "=1.8.7", features = ["pure"] }
getrandom = "=0.4.3"
clap = { version = "=4.6.7", features = ["derive"] }
heck = "=0.5.0"
hex = "=0.4.3"
jiff = { version = "=0.2.43", default-features = false, features = ["std"] }
md-5 = "=0.10.6"
owo-colors = "=4.4.0"
percent-encoding = "=2.3.2"
qrcode = { version = "=0.14.1", default-features = false, features = ["svg"] }
sha1 = "=0.10.7"
sha2 = "=0.10.9"
sha3 = "=0.10.9"
strum = { version = "=0.27.2", features = ["derive"] }
uuid = { version = "=1.29.1", features = ["v4", "v7"] }
