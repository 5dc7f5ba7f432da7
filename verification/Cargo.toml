[package]
name = "coop_rt"
version = "0.1.0"
edition = "2021"
publish = false

[dev-dependencies]
critical-section = { version = "=1.2.0", features = ["std"] }
embassy-futures = "=0.1.2"
embassy-sync = "=0.8.0"
embassy-time = { version = "=0.5.1", features = ["mock-driver", "generic-queue-8"] }
