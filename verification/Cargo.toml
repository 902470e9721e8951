[package]
name = "entice"
version = "0.1.0"
edition = "2021"
publish = false

[dependencies]
handlebars = "*"
config = "*"
ctrlc = "*"
clap = "*"
chrono = "*"
