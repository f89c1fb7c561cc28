[package]
name = "usb_edge_bridge"
version = "0.1.0"
edition = "2021"
publish = false

[dependencies]
critical-section = { version = "=1.2.0", features = ["std"] }
defmt = { version = "=1.2.0", features = ["encoding-rzcobs"] }
embassy-executor = { version = "=0.9.1", features = ["arch-std", "executor-thread"] }
embassy-rp = { version = "=0.10.0", features = ["rp2040", "time-driver"] }
embassy-sync = "=0.8.0"
embassy-time = "=0.5.1"
embassy-usb = "=0.6.0"
panic-probe = "=1.0.0"
static_cell = "=2.1.1"
