[package]
name = "air_quality_monitor"
version = "0.1.0"
edition = "2021"
publish = false

[dependencies]
moving_median = "=0.4.0"
heapless = "=0.9.3"
ens160-aq = "=0.2.12"
embassy-time = { version = "=0.5.1", features = ["std"] }
aht20-async = "=1.0.0"
embassy-executor = { version = "=0.10.0", features = ["platform-std", "executor-thread"] }
embassy-sync = "=0.8.0"
embassy-rp = "=0.10.0"
embassy-embedded-hal = "=0.6.0"
static_cell = "=2.1.1"
embedded-graphics = "=0.8.1"
panic-probe = "=1.0.0"
