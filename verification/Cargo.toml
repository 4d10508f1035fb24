[package]
name = "typelabel"
version = "0.1.0"
edition = "2021"
publish = false

[dependencies]
typed-arena = "*"
dynasmrt = "*"
