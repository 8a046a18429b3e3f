[package]
name = "merobox_storage"
version = "0.1.0"
edition = "2021"
publish = false

[dependencies]
async-trait = "0.1"
eyre = "0.6"
serde_json = "1"
