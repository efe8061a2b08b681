[package]
name = "linkrusk"
version = "0.1.0"
edition = "2021"
publish = false

[dependencies]
chrono = { version = "0.4", default-features = false, features = ["std"] }
serde = { version = "1", features = ["derive"] }
serde_json = "1"
reqwest = { version = "0.12", default-features = false, features = ["json"] }
dioxus = { version = "0.6", features = ["router", "web"] }
web-sys = { version = "0.3", features = ["Window", "Storage", "Location"] }
