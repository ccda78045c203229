[package]
name = "mandala_smart_book"
version = "0.1.0"
edition = "2021"
publish = false

[dependencies]
image = { version = "=0.25.10", default-features = false, features = ["png", "jpeg"] }
rand = "=0.9.5"
embedded-hal = "=1.0.0"
embedded-hal-bus = { version = "=0.3.0", features = ["std"] }
linux-embedded-hal = { version = "=0.4.1", default-features = false, features = ["i2c", "spi"] }
pmsa003i = { version = "=0.1.11", features = ["aqi"] }
scd4x = { version = "=0.5.0", features = ["scd41"] }
veml7700 = "=0.3.2"
chrono = "=0.4.45"
anyhow = "=1.0.104"
tokio = { version = "=1.54.1", features = ["time", "macros", "rt"] }
futures = "=0.3.34"
smart-leds = "=0.4.0"
ws2812-spi = { version = "=0.5.1", features = ["std"] }
bytes = "=1.12.1"
tracing-subscriber = "=0.3.23"
iced = { version = "=0.14.0", default-features = false, features = ["canvas", "image-without-codecs", "tokio", "tiny-skia", "x11"] }
calloop = "=0.14.5"
calloop-wayland-source = "=0.4.1"
wayland-client = "=0.31.15"
wayland-protocols-wlr = { version = "=0.3.12", features = ["client"] }
