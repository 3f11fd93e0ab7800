[package]
name = "esp_hal_smartled"
version = "0.1.0"
edition = "2021"
publish = false

[dependencies]
esp-hal = "*"
smart-leds-trait = "*"
embedded-graphics-core = "*"
