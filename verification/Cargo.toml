[package]
name = "scrcpy_gui_lib"
version = "0.1.0"
edition = "2021"

[dependencies]
chrono = "0.4"
lazy_static = "1"
serde = { version = "1", features = ["derive"] }
serde_json = "1"
tauri = { version = "2", default-features = false }
tokio = { version = "1", features = ["rt-multi-thread", "macros", "time", "sync", "process", "io-util"] }
