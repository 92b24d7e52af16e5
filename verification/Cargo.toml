[package]
name = "winevt_core"
version = "0.1.0"
edition = "2021"
publish = false

[dependencies]
clap = "2.33"
serde_json = "1"
winapi = { version = "0.3", features = ["winevt", "errhandlingapi", "winerror"] }
