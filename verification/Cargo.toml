[package]
name = "myapp"
version = "0.1.0"
edition = "2021"
publish = false

[dependencies]
rayon = "1"
num_cpus = "1"
anyhow = "1"
dotenv = "0.15"
