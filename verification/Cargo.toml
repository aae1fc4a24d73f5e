[package]
name = "onepage"
version = "0.1.0"
edition = "2021"
publish = false

[dependencies]
mdbook = { version = "=0.4.52", default-features = false }
semver = "=1.0.28"
toml = "=0.5.11"
