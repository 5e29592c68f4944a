[package]
name = "gdvgrab"
version = "0.1.0"
edition = "2021"
publish = false

[dependencies]
subprocess = "0.2"
config_file_handler = "*"
serde = { version = "1", features = ["derive"] }
gtk = "*"
