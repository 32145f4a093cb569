[package]
name = "tdl_core"
version = "0.1.0"
edition = "2021"
publish = false

[dependencies]
base64 = "*"
serde_json = "*"
serde_urlencoded = "*"
serde = "*"
serde_derive = "*"
reqwest = { version = "*", default-features = false, features = ["json", "stream"] }
tokio = { version = "*", features = ["rt-multi-thread", "macros", "time"] }
futures = "*"
http = "*"
indicatif = "*"
lofty = "*"
