[package]
name = "touch_bringup"
version = "0.1.0"
edition = "2021"
publish = false

[dependencies]
critical-section = "1"
display-interface-spi = "0.4"
embedded-graphics = "0.8"
esp-backtrace = { version = "0.13", features = ["esp32s3", "panic-handler", "exception-handler"] }
esp-println = { version = "0.10", features = ["esp32s3"] }
esp32s3-hal = "0.13"
mipidsi = "0.7"
tt21100 = "0.1.0"
