[package]
name = "slquickemu"
version = "0.1.0"
edition = "2021"
publish = false

[dependencies]
clap = "2.34"
directories = "4"
glob = "0.3"
log = "0.4"
num_cpus = "1"
pretty_env_logger = "0.4"
serde = { version = "1", features = ["derive"] }
toml = "0.5"
