[package]
name = "astscan"
version = "0.1.0"
edition = "2021"
publish = false

[dependencies]
ast-grep-core = "*"
ast-grep-config = "*"
ast-grep-language = "*"
clap = { version = "*", features = ["derive"] }
ignore = "*"
num_cpus = "*"
