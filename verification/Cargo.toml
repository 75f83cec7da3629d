[package]
name = "fundraising_program"
version = "0.1.0"
edition = "2021"
publish = false

[dependencies]
sha2 = "0.10"
anchor-lang = "0.31"
anchor-spl = { version = "0.31", default-features = false, features = ["token", "associated_token"] }
