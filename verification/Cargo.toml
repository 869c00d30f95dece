[package]
name = "microflow"
version = "0.1.0"
edition = "2021"
publish = false

[dependencies]
flatbuffers = "23.5"
libm = "0.2"
nalgebra = "0.32"
proc-macro2 = "1.0"
proc-macro-error = "1.0"
quote = "1.0"
simba = "0.8"
structmeta = "0.2"
syn = { version = "2.0", features = ["full"] }
