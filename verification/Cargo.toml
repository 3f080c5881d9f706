[package]
name = "cashu_iced"
version = "0.1.0"
edition = "2021"
publish = false

[dependencies]
anyhow = "=1.0.104"
bip39 = { version = "=3.0.0", features = ["rand"] }
cdk = { version = "=0.18.1", default-features = false, features = ["wallet"] }
cdk-sqlite = { version = "=0.18.1", default-features = false, features = ["wallet"] }
home = "=0.5.12"
tokio = { version = "=1.53.2", features = ["rt-multi-thread", "time", "macros"] }
