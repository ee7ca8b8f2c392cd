[package]
name = "surface_lib"
version = "0.1.0"
edition = "2021"
publish = false

[dependencies]
anyhow = "*"
cmaes-lbfgsb = "*"
libm = "*"
roots = "*"
serde = { version = "*", features = ["derive"] }
statrs = "*"
