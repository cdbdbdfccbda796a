[package]
name = "argus"
version = "0.1.0"
edition = "2021"
publish = false

[dependencies]
postcard = "1"
embedded-sdmmc = "0.3"
mavlink-core = { version = "*", default-features = false, features = ["std"] }
nb = "1"
defmt = "0.3"
cortex-m = "0.7"
embedded-hal = "1"
embassy-stm32 = { version = "*", features = ["stm32h733vg"] }
