[package]
name = "pi7c9xg404"
version = "0.1.0"
edition = "2021"
publish = false

[dependencies]
clap = { version = "*", features = ["derive"] }
i2cdev = "*"
num = "*"
