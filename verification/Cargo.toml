[package]
name = "point_cloud"
version = "0.1.0"
edition = "2021"
publish = false

[dependencies]
rand = { version = "0.8", features = ["small_rng"] }
derive_more = { version = "*", features = ["add", "add_assign", "mul"] }
