[package]
name = "charinfo"
version = "0.1.0"
edition = "2021"
publish = false

[dependencies]
regex = "*"
unic-ucd = "*"
unicode_names2 = "*"
