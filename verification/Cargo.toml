[package]
name = "trailsense-edge"
version = "0.1.0"
edition = "2021"
publish = false

[dependencies]
embassy-executor = "=0.9.1"
embassy-net = { version = "=0.7.1", features = ["dhcpv4", "dns", "medium-ethernet", "proto-ipv4", "tcp"] }
embassy-sync = "=0.7.2"
embassy-time = { version = "=0.5.1", features = ["tick-hz-1_000_000"] }
esp-alloc = "=0.9.0"
esp-backtrace = { version = "=0.18.1", features = ["esp32", "panic-handler", "println"] }
esp-bootloader-esp-idf = { version = "=0.4.0", features = ["esp32"] }
esp-hal = { version = "=1.0.0", features = ["esp32", "unstable"] }
esp-println = { version = "=0.16.1", features = ["esp32", "log-04"] }
esp-radio = { version = "=0.17.0", features = ["esp32", "sniffer", "unstable", "wifi"] }
esp-rtos = { version = "=0.2.0", features = ["embassy", "esp-radio", "esp32"] }
heapless = "=0.8.0"
ieee80211 = { version = "=0.5.9", default-features = false }
log = "0.4"
reqwless = "=0.13.0"
serde_json = { version = "=1.0.154", default-features = false, features = ["alloc"] }
static_cell = "=2.1.1"

[dev-dependencies]
embassy-time = { version = "=0.5.1", features = ["std"] }
