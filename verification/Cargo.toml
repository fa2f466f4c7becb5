[package]
name = "axvirtio"
version = "0.1.0"
edition = "2021"
publish = false

[dependencies]
axaddrspace = "*"
axdevice_base = "*"
axerrno = "*"
memory_addr = "*"
log = "*"
spin = "*"
virtio-drivers = "*"
byte-unit = "*"
axdriver_pci = "*"
nvme-driver = "*"
dma-api = "*"
