[package]
name = "steam_inventory"
version = "0.1.0"
edition = "2021"
publish = false

[dependencies]
steamworks = { version = "=0.13.1", features = ["raw-bindings"] }
napi = { version = "=2.16.17", features = ["tokio_rt"] }
napi-derive = "=2.16.13"
tokio = { version = "=1.54.1", features = ["sync", "time"] }
