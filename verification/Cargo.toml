[package]
name = "ch32v103_hal"
version = "0.1.0"
edition = "2021"
publish = false

[dependencies]
ch32v1 = { version = "=0.1.6", features = ["ch32v103", "critical-section"] }
embedded-hal = { version = "=0.2.7", features = ["unproven"] }
nb = "=1.1.0"
riscv = "=0.10.1"
critical-section = { version = "=1.2.0", features = ["std"] }
