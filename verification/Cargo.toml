[package]
name = "gpio_typestate"
version = "0.1.0"
edition = "2021"
publish = false

[dependencies]
embedded-hal = "=1.0.0-alpha.7"
stm32_i2s_v12x = "0.2"
