[package]
name = "fox"
version = "0.1.0"
edition = "2021"
publish = false

[dependencies]
miette = "5"
thiserror = "1"
