[package]
name = "zombodb"
version = "0.1.0"
edition = "2021"
publish = false

[dependencies]
lazy_static = "*"
memoffset = "*"
num_cpus = "*"
url = "2"
pgx = "*"
