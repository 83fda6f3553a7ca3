[package]
name = "smaug"
version = "0.1.0"
edition = "2021"
publish = false

[dependencies]
semver = "=1.0.28"
url = "=2.5.8"
ignore = "=0.4.33"
shellexpand = "=3.1.2"
git2 = { version = "=0.21.0", default-features = false }
reqwest = { version = "=0.12.28", default-features = false, features = ["blocking", "rustls-tls"] }
question = "=0.2.2"
directories = "=6.0.0"
walkdir = "=2.5.0"
rm_rf = "=0.6.2"
toml = { version = "=1.1.7", features = ["preserve_order"] }
serde_json = "=1.0.151"
zip-extensions = "=0.14.1"
