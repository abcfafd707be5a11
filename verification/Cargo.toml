[package]
name = "duck_race"
version = "0.1.0"
edition = "2021"
publish = false

[dependencies]
cortex-m = "0.7"
cortex-m-rt = "0.7"
defmt = "=1.2.0"
defmt-rtt = "=1.3.1"
embassy-executor = { version = "=0.9.1", features = ["executor-thread"] }
embassy-futures = "=0.1.2"
embassy-rp = { version = "=0.9.0", features = ["rp2040", "time-driver", "critical-section-impl"] }
embassy-sync = "=0.7.2"
embassy-time = { version = "=0.5.1", features = ["tick-hz-1_000_000"] }
libm = "=0.2.16"
panic-probe = { version = "=1.0.0", features = ["print-defmt"] }
smart-leds = "=0.4.0"
