[package]
name = "bluescan"
version = "0.1.0"
edition = "2021"
publish = false

[dependencies]
anyhow = "1"
colored = "2"
gethostname = "*"
indicatif = "0.17"
log = "0.4"
os_info = "3"
reqwest = { version = "0.12", default-features = false, features = ["json", "rustls-tls"] }
serde = { version = "1", features = ["derive"] }
serde_json = "1"
simplelog = "0.12"
tokio = { version = "1", features = ["macros", "rt-multi-thread", "time"] }
winreg = "*"
wmi = "*"
