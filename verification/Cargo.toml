[package]
name = "aarch64_vm"
version = "0.1.0"
edition = "2021"
publish = false

[dependencies]
smallvec = "1"
elf = "0.7"
slab = "0.4"
thiserror = "1"
