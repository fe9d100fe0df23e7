[package]
name = "fedimint_escrow"
version = "0.1.0"
edition = "2021"
publish = false

[dependencies]
anyhow = "=1.0.104"
async-trait = "=0.1.92"
erased-serde = "=0.4.11"
futures = "=0.3.34"
serde = { version = "=1.0.229", features = ["derive"] }
strum = { version = "=0.27.2", features = ["derive"] }
strum_macros = "=0.27.2"
thiserror = "=2.0.21"
tracing = "=0.1.44"
