[package]
name = "cmf_convert"
version = "0.1.0"
edition = "2021"
publish = false

[dependencies]
walkdir = "*"
phf = { version = "*", features = ["macros"] }
combo_vec = "*"

[dev-dependencies]
byteorder = "*"
