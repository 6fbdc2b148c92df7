[package]
name = "pw_pathux"
version = "0.1.0"
edition = "2021"

[dependencies]
dirs = "*"
