[package]
name = "sven-esp32"
version = "0.1.0"
edition = "2021"
publish = false

[dependencies]
embassy-executor = { version = "0.7.0", features = ["task-arena-size-20480"] }
embassy-net = { version = "0.6.0", features = ["tcp", "udp", "dhcpv4", "medium-ethernet"] }
embassy-time = { version = "0.4.0", features = ["generic-queue-8"] }
esp-alloc = { version = "0.6.0" }
esp-backtrace = { version = "0.15.0", features = ["esp32c3", "exception-handler", "panic-handler", "println"] }
esp-hal = { version = "0.23.1", features = ["esp32c3", "unstable"] }
esp-hal-embassy = { version = "0.6.0", features = ["esp32c3"] }
esp-println = { version = "0.13.0", features = ["esp32c3", "log"] }
esp-wifi = { version = "0.12.0", default-features = false, features = ["esp32c3", "utils", "wifi", "esp-alloc", "log"] }
heapless = { version = "0.8.0", default-features = false }
log = { version = "0.4.21" }
rust-mqtt = { version = "0.3.0", default-features = false }
serde = { version = "1.0", default-features = false, features = ["derive"] }
serde-json-core = { version = "0.6.0" }
static_cell = { version = "2.1.0" }
