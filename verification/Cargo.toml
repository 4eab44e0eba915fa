[package]
name = "clang_rs_binding"
version = "0.1.0"
edition = "2021"
publish = false

[dependencies]
clang-sys = { version = "1", features = ["runtime"] }
