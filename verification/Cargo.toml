[package]
name = "rvkernel"
version = "0.1.0"
edition = "2021"
publish = false

[dependencies]
riscv = "0.10"
spin = "*"
log = "0.4"
lazy_static = "1"
buddy_system_allocator = "*"
d1-pac = "*"
cfg-if = "1"
