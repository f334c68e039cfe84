[package]
name = "llama_cpp_4"
version = "0.4.2"
edition = "2021"
publish = false

[dependencies]
llama-cpp-sys-4 = "=0.4.4"
thiserror = "=2.0.21"
