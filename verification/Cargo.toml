[package]
name = "clean_runner"
version = "0.1.0"
edition = "2021"
publish = false

[dependencies]
wasmtime = { version = "22", default-features = false, features = ["std", "runtime", "cranelift", "wat"] }
