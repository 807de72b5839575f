[package]
name = "ore_app"
version = "0.1.0"
edition = "2021"
publish = false

[dependencies]
solana-sdk = "=1.18.26"
log = "=0.4.34"
ore-program = "1"
dioxus = { version = "0.5", default-features = false, features = ["macro", "html", "signals", "hooks"] }
dioxus-router = { version = "0.5", default-features = false }
