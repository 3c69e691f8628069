[package]
name = "chord_gen"
version = "2.1.1"
edition = "2021"
publish = false

[dependencies]
clap = "*"
tera = "*"
