[package]
name = "agin_auth"
version = "0.1.0"
edition = "2021"
publish = false

[dependencies]
argon2 = "=0.6.0"
totp-rs = { version = "=6.0.0", features = ["gen_secret", "otpauth"] }
base32 = "=0.5.1"
rand = "=0.10.3"
uuid = { version = "=1.27.0", features = ["v4"] }
serde_json = "=1.0.151"
webauthn-rs = { version = "=0.5.5", features = ["danger-allow-state-serialisation"] }
pgp = "=0.21.0"

[dev-dependencies]
rand_chacha = "=0.3.1"
