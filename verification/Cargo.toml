[package]
name = "sportsbook"
version = "0.1.0"
edition = "2021"
publish = false

[dependencies]
anchor-lang = "=0.30.1"
anchor-spl = { version = "=0.30.1", default-features = false, features = ["token", "token_2022"] }
