[package]
name = "gsearch"
version = "0.1.0"
edition = "2021"
publish = false

[dependencies]
scraper = "=0.29.0"
serde = { version = "=1.0.229", features = ["derive"] }
ron = "=0.12.3"
tokio = { version = "=1.54.1", features = ["full"] }
futures = "=0.3.34"
chromiumoxide = "=0.9.1"
sysinfo = "=0.40.1"
reqwest = { version = "=0.13.5", features = ["json"] }
abi_stable = "=0.11.3"
fake_user_agent = "=0.2.3"
anyrun-plugin = "*"
