[package]
name = "rustc_ast"
version = "0.1.0"
edition = "2021"
publish = false

[dependencies]
ra-ap-rustc_index = { version = "*", default-features = false }
rustc_span = "0.1.2"
smallvec = "1.13.2"
thin-vec = "0.2.21"
