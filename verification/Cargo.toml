[package]
name = "sdkt_rpc"
version = "0.1.0"
edition = "2021"
publish = false

[dependencies]
base64 = "0.22"
stellar-strkey = "*"
stellar-xdr = "*"
serde = { version = "1", features = ["derive"] }
serde_json = "1"
reqwest = { version = "0.12", default-features = false, features = ["json"] }
tokio = { version = "1", features = ["rt-multi-thread", "macros", "time", "net", "io-util", "sync"] }
