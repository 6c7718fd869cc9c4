[package]
name = "croc"
version = "0.1.0"
edition = "2021"
publish = false

[dependencies]
anchor-lang = { version = "=1.2.1", features = ["init-if-needed"] }
ephemeral-rollups-sdk = { version = "0.17.3", features = ["anchor"] }
ephemeral-vrf-sdk = { version = "=0.17.3", features = ["anchor"] }
