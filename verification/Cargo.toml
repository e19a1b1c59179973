[package]
name = "first_class_variants"
version = "0.1.0"
edition = "2021"
publish = false

[dependencies]
syn = { version = "1", features = ["full"] }
quote = "1"
proc-macro2 = "1"
