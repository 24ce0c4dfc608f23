[package]
name = "game_core"
version = "0.1.0"
edition = "2021"
publish = false

[dependencies]
crossbeam = "0.8"
rayon = "1"
num_cpus = "1"
ron = "*"
serde = { version = "1", features = ["derive"] }
boa_engine = "*"
boa_gc = "*"
colored = "*"
colog = "*"
env_logger = "*"
log = "0.4"
