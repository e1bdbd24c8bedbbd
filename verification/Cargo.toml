[package]
name = "canshunt"
version = "0.1.0"
edition = "2021"
publish = false

[dependencies]
zencan-node = "*"
embedded-io = "*"
num-traits = { version = "*", default-features = false }
defmt = "*"
critical-section = "*"
cortex-m = "*"
cortex-m-rt = "*"
rtt-target = "*"
panic-probe = "*"
stm32-metapac = { version = "*", features = ["stm32l552ze"] }
stm32-hal2 = { version = "*", features = ["l552"] }
