[package]
name = "hp_mouse_configurator"
version = "0.1.0"
edition = "2021"
publish = false

[dependencies]
bitvec = "1"
once_cell = "1"
serde = { version = "1", features = ["derive"] }
