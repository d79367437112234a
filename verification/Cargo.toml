[package]
name = "rcon_client"
version = "0.1.0"
edition = "2021"
publish = false

[dependencies]
clap = { version = "*", features = ["derive"] }
tokio = { version = "*", default-features = false, features = ["macros", "rt"] }
