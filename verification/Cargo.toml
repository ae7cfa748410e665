[package]
name = "vspace"
version = "0.1.0"
edition = "2021"
publish = false

[dependencies]
aarch64-cpu = "*"
riscv = "*"
tock-registers = "*"
