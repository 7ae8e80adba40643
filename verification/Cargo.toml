[package]
name = "crispii_colours"
version = "0.1.0"
edition = "2021"
publish = false

[dependencies]
crispii_digits = "=0.1.2"
crispii_errors = "=0.1.3"
