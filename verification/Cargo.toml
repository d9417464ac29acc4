[package]
name = "dum"
version = "0.1.19"
edition = "2021"
publish = false

[dependencies]
ansi_term = "0.12"
ctrlc = "3"
dialoguer = "*"
env_logger = "*"
log = "0.4"
path-absolutize = "3"
reqwest = { version = "*", features = ["json"] }
serde = { version = "1", features = ["derive"] }
serde_json = { version = "1", features = ["preserve_order"] }
shlex = "1"
