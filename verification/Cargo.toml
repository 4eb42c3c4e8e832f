[package]
name = "apple_account"
version = "0.1.0"
edition = "2021"
publish = false

[dependencies]
aes = "=0.9.4"
aes-gcm = "=0.11.1"
base64 = "=0.23.1"
cbc = { version = "=0.2.1", features = ["alloc"] }
hex = "=0.4.3"
hmac = "=0.13.0"
pbkdf2 = { version = "=0.13.0", features = ["hmac"] }
plist = "=1.10.3"
plist-macro = "=0.1.6"
rand = "=0.10.3"
reqwest = { version = "=0.13.5", default-features = false }
rootcause = "=0.13.0"
serde = { version = "=1.0.229", features = ["derive"] }
serde_json = "=1.0.154"
sha2 = "=0.11.1"
srp = "0.7.0-pre.0"
tracing = "=0.1.44"
