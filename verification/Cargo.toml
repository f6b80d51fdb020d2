[package]
name = "autotiling"
version = "0.1.0"
edition = "2021"
publish = false

[dependencies]
anyhow = "*"
clap = { version = "*", features = ["derive"] }
futures = "*"
swayipc-async = "*"
tokio = { version = "*", features = ["macros", "rt-multi-thread", "time"] }
