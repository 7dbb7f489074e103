[package]
name = "neuron_bundle"
version = "0.1.0"
edition = "2021"
publish = false

[dependencies]
candid = "=0.8.4"
ic-agent = "=0.49.2"
clap = { version = "=4.6.7", features = ["derive"] }
anyhow = "=1.0.104"
