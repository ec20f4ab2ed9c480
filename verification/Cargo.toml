[package]
name = "vm_adapter"
version = "0.1.0"
edition = "2021"
publish = false

[dependencies]
anyhow = "1"
bcs = "0.1"
diem-crypto = "0.0.3"
diem-types = "0.0.3"
move-core-types = "0.0.3"
rand = "0.8"
reqwest = { version = "0.11", default-features = false }
