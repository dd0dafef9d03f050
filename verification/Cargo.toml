[package]
name = "irq_sync"
version = "0.1.0"
edition = "2021"
publish = false

[dependencies]
cortex-m = "0.7"
cortex-m-rt = "0.7"
embedded-hal = "0.2"
stm32f7xx-hal = { version = "0.7", features = ["stm32f767", "rt"] }
