[package]
name = "web-rwkv"
version = "0.1.0"
edition = "2021"
publish = false

[dependencies]
anyhow = "1"
bitflags = "2"
bytemuck = { version = "1", features = ["extern_crate_alloc"] }
half = { version = "2", features = ["bytemuck"] }
regex = "1"
wgpu = { version = "0.17", default-features = false }
