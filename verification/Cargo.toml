[package]
name = "arcyield"
version = "0.1.0"
edition = "2021"
publish = false

[dependencies]
anchor-lang = "=1.0.2"
anchor-spl = { version = "=1.0.2", default-features = false, features = ["token"] }
arcium-anchor = "=0.16.0"
arcium-client = { version = "=0.16.0", default-features = false }
borsh = { version = "1", default-features = false }
