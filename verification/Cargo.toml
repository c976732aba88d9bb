[package]
name = "proof_of_wasted_work"
version = "0.1.0"
edition = "2021"
publish = false

[dependencies]
anchor-lang = { version = "=0.28.0", features = ["init-if-needed"] }
anchor-spl = "=0.28.0"
bytemuck = "=1.25.2"
sha2 = "=0.10.9"
switchboard-v2 = "=0.4.0"
