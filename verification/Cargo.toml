[package]
name = "functor_runtime_common"
version = "0.1.0"
edition = "2021"
publish = false

[dependencies]
cgmath = "*"
clap = { version = "*", features = ["derive"] }
glow = "*"
tokio = { version = "*", features = ["macros", "rt-multi-thread"] }
