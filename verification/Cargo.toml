[package]
name = "nokden"
version = "0.1.0"
edition = "2021"
publish = false

[dependencies]
ash = "=0.37.3"
ash-window = "=0.10.0"
nalgebra = "=0.30.1"
tobj = "=2.0.4"
winit = { version = "0.25", default-features = false, features = ["x11"] }
