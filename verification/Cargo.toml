[package]
name = "glyphlayout"
version = "0.1.0"
edition = "2021"
publish = false

[dependencies]
minkowski = "*"
rand = "0.8"
rand_pcg = "0.3"
svgtypes = "*"
