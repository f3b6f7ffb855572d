[package]
name = "twatch"
version = "0.1.0"
edition = "2021"
publish = false

[dependencies]
axp20x = "=0.0.3"
display-interface = "=0.4.1"
display-interface-spi = "=0.4.1"
embedded-hal = "=1.0.0"
st7789 = "=0.7.0"
esp32 = "=0.42.0"
esp32-hal = "=0.3.0"
