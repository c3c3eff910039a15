[package]
name = "ebpf_memory_monitor"
version = "0.1.0"
edition = "2021"
publish = false

[dependencies]
anyhow = "1"
aya = "0.13"
aya-obj = "0.2"
libc = "0.2"
nix = { version = "0.29", features = ["resource", "feature"] }
