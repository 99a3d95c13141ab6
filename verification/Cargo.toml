[package]
name = "riscv_vplic"
version = "0.1.0"
edition = "2021"
publish = false

[dependencies]
axaddrspace = "0.1"
axdevice_base = "=0.1.0"
axerrno = "0.1"
log = "=0.4.34"
spin = "=0.9.9"
