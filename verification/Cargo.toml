[package]
name = "meshtastic_node"
version = "0.1.0"
edition = "2021"
publish = false

[dependencies]
aes = "=0.8.4"
ctr = "=0.9.2"
ccm = "=0.5.0"
aead = { version = "=0.5.2", features = ["arrayvec"] }
arrayvec = "=0.7.8"
sha2 = "=0.10.9"
cortex-m = { version = "0.7", features = ["critical-section-single-core"] }
cortex-m-rt = "0.7"
defmt = "*"
defmt-rtt = "*"
panic-probe = { version = "*", features = ["print-defmt"] }
embassy-stm32 = { version = "*", features = ["stm32f411ce", "time-driver-any", "exti"] }
embassy-time = "*"
stm32f4xx-hal = { version = "*", features = ["stm32f411"] }
embedded-graphics = "*"
ssd1306 = "*"
u8g2-fonts = "*"
