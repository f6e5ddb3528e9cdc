[package]
name = "palette_table"
version = "0.1.0"
edition = "2021"
publish = false

[dependencies]
easy_color = "*"
kdl = "4"
