[package]
name = "molekular"
version = "0.1.0"
edition = "2021"
publish = false

[dependencies]
rustc_apfloat = "*"
kiss3d = "0.35"
plotters = { version = "0.3", default-features = false, features = ["bitmap_backend", "bitmap_encoder", "area_series"] }
