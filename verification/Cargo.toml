[package]
name = "glsl-quasiquote"
version = "0.1.0"
edition = "2021"
publish = false

[dependencies]
glsl = "0.9"
proc-macro2 = "1"
quote = "1"
