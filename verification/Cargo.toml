[package]
name = "msas"
version = "0.1.0"
edition = "2021"
publish = false

[dependencies]
csv = "1"
serde = { version = "1", features = ["derive"] }
serde_json = "1"
toml = "*"
clap = { version = "4", features = ["derive"] }
anyhow = "1"
log = "0.4"
env_logger = "*"
rayon = "1"
num_cpus = "1"
chrono = "0.4"
tera = "1"
printpdf = "*"
