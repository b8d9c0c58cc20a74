[package]
name = "gitmeta"
version = "0.1.0"
edition = "2021"
publish = false

[dependencies]
git2 = { version = "=0.20.4", default-features = false }
gix = { version = "=0.90.0", default-features = false, features = ["revision", "sha1"] }

[dev-dependencies]
tempfile = "=3.27.0"
