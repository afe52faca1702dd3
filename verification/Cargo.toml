[package]
name = "flexvg"
version = "0.1.0"
edition = "2021"
publish = false

[dependencies]
taffy = "0.1"
regex = "1"
libm = "0.2"
bytemuck = "1"
anyhow = "1"
clap = { version = "3", features = ["derive"] }
convert_case = "*"
dotenv = "*"
env_logger = "*"
log = "*"
serde = { version = "1", features = ["derive"] }
serde_json = "1"
serde_yaml = "*"
