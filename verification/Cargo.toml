[package]
name = "arraytools"
version = "0.1.5"
edition = "2021"

[dependencies]
array-init = "2"
