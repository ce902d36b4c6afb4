[package]
name = "cursor_mate"
version = "0.1.0"
edition = "2021"
publish = false

[dependencies]
uuid = { version = "*", features = ["v4"] }
serde_json = "*"
clap = { version = "*", features = ["derive"] }
directories = "*"
libc = "*"
