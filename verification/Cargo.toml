[package]
name = "arb_monitor"
version = "0.1.0"
edition = "2021"
publish = false

[dependencies]
ethers = { version = "=2.0.14", default-features = false, features = ["abigen"] }
tokio = { version = "1", features = ["macros", "rt-multi-thread", "time"] }
config = { version = "=0.14.1", default-features = false, features = ["toml"] }
dotenv = "=0.15.0"
eyre = "=0.6.14"
serde = { version = "1", features = ["derive"] }
