[package]
name = "jiff_sql"
version = "0.1.0"
edition = "2021"
publish = false

[dependencies]
jiff = "0.2"
byteorder = "1"
bytes = "1"
