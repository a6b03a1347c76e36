[package]
name = "mock_server"
version = "0.1.0"
edition = "2021"
publish = false

[dependencies]
chrono = "=0.4.45"
num_cpus = "=1.17.0"
serde = { version = "=1.0.229", features = ["derive"] }
tokio = { version = "=1.53.2", features = ["macros", "rt-multi-thread"] }
warp = { version = "=0.4.3", features = ["server"] }
