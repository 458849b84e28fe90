[package]
name = "nir_rs"
version = "0.4.4"
edition = "2021"
publish = false

[dependencies]
indexmap = "=2.14.2"
thiserror = "=2.0.21"
tempfile = "=3.27.0"
hdf5-metno = "=0.15.1"
hdf5-metno-sys = "=0.12.5"
