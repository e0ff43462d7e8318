[package]
name = "ssr_sandbox"
version = "0.1.0"
edition = "2021"
publish = false

[dependencies]
url = "2"
base64 = "0.22"
sha2 = "0.10"
uuid = { version = "1", features = ["v4"] }
rand = "*"
serde_json = "1"
serde = { version = "1", features = ["derive"] }
anyhow = "1"
tokio = { version = "1", features = ["macros", "rt-multi-thread", "time"] }
reqwest = { version = "0.12", default-features = false }
deno_core = "*"
