[package]
name = "meshcmd"
version = "0.1.0"
edition = "2021"
publish = false

[dependencies]
arson = "*"
clap = { version = "*", features = ["derive"] }
gltf = { version = "*", features = ["import", "utils", "names"] }
