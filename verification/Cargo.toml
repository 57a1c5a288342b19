[package]
name = "bevy_node_plumber"
version = "0.1.0"
edition = "2021"
publish = false

[dependencies]
bevy = { version = "=0.12.1", default-features = false }
thiserror = "=1.0.69"
