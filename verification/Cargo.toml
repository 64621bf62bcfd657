[package]
name = "lcd"
version = "0.1.0"
edition = "2021"
publish = false

[dependencies]
embedded-graphics = "=0.8.2"
libm = "=0.2.16"
ili9341 = "=0.6.0"
display-interface-spi = "=0.5.0"
embassy-stm32 = { version = "=0.4.0", features = ["stm32u585ai", "time-driver-any", "memory-x", "unstable-pac"] }
embassy-executor = "=0.9.1"
embassy-time = "=0.5.1"
embassy-sync = "=0.7.2"
embassy-embedded-hal = "=0.5.0"
cortex-m = "=0.7.10"
defmt = "=1.2.0"
defmt-rtt = "=1.3.1"
panic-probe = "=1.0.0"
embedded-alloc = "0.6"
