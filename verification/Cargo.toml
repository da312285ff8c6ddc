[package]
name = "snek"
version = "0.1.0"
edition = "2021"
publish = false

[dependencies]
rand = "0.8"
rand_chacha = "0.3"
serde = { version = "1", features = ["derive"] }
serde_json = "1"
toml = "*"
csv = "1"
log = "0.4"
simple_logger = "*"
directories = "*"
num = "0.4"
num_cpus = "1"
crossbeam = "*"
structopt = "0.3"
image = "*"
