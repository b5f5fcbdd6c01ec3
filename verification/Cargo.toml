[package]
name = "pwgen"
version = "0.1.0"
edition = "2021"

[dependencies]
rand = "0.8"
structopt = "0.3"
