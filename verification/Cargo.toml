[package]
name = "dopamine"
version = "0.1.0"
edition = "2021"
publish = false

[dependencies]
regex = "1"
fastrand = "2"
serde = { version = "1", features = ["derive"] }
serde_yaml_ng = "*"
log = "0.4"
chrono = "0.4"
num-traits = "0.2"
strum = { version = "*", features = ["derive"] }
enum-map = "2"
educe = "*"
bitflags = "2"
derive_builder = "*"
bumpalo = "3"
