[package]
name = "bt2usb"
version = "0.1.0"
edition = "2021"
publish = false

[dependencies]
heapless = "=0.8.0"
defmt = "=0.3.101"
embassy-futures = "=0.1.2"
embassy-nrf = { version = "=0.3.1", features = ["nrf52840", "time-driver-rtc1", "gpiote"] }
embassy-sync = "=0.6.2"
embassy-time = "=0.4.0"
embassy-usb = { version = "=0.4.0", default-features = false }
embedded-graphics = "=0.8.2"
embedded-hal = "=1.0.0"
embedded-storage-async = "=0.4.2"
nrf-softdevice = { version = "=0.1.0", features = ["nrf52840", "s140", "ble-central", "ble-gatt-client", "ble-sec", "critical-section-impl"] }
sequential-storage = "=3.0.1"
ssd1306 = "=0.10.0"
static_cell = "=2.1.1"
anyhow = "=1.0.104"
btleplug = "=0.13.5"
futures = "=0.3.34"
tokio = { version = "=1.54.1", features = ["macros", "rt-multi-thread", "time"] }
uuid = "=1.29.0"
