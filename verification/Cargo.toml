[package]
name = "alakit"
version = "0.2.0"
edition = "2021"
publish = false

[dependencies]
aes-gcm = "*"
zeroize = "*"
base64 = "*"
serde_json = "*"
serde = { version = "*", features = ["derive"] }
mime_guess = "*"
tao = "*"
wry = "*"
tokio = { version = "*", features = ["rt-multi-thread", "rt", "macros"] }
inventory = "*"
async-trait = "*"
rust-embed = "*"
reqwest = { version = "*", default-features = false, features = ["json", "rustls-tls"] }
rfd = { version = "*", default-features = false, features = ["gtk3"] }
image = { version = "*", default-features = false, features = ["jpeg", "png", "webp"] }
lazy_static = "*"
syn = { version = "*", features = ["full"] }
quote = "*"
proc-macro2 = "*"
