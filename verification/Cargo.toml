[package]
name = "wasmer_wasi"
version = "0.1.0"
edition = "2021"
publish = false

[dependencies]
libc = "0.2"
shellexpand = "2"
weezl = "0.1"
bytes = "1"
wasmer = "3"
wasmer-compiler = "3"
wasmer-compiler-cranelift = "3"
wasmer-vfs = "3"
wasmer-vnet = "3"
wasmer-vbus = "3"
wasmer-wasi-types = "3"
