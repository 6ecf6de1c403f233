[package]
name = "virtio_gpu"
version = "0.1.0"
edition = "2021"
publish = false

[dependencies]
bitflags = "2"
log = "=0.4.35"
