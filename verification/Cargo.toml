[package]
name = "pascal_marshal"
version = "0.1.0"
edition = "2021"
publish = false

[dependencies]
codepage = "*"
encoding_rs = "*"
clap = { version = "*", features = ["derive"] }
