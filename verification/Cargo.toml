[package]
name = "nyanpasu_dirs"
version = "0.1.0"
edition = "2021"
publish = false

[dependencies]
anyhow = "=1.0.104"
chrono = "=0.4.45"
convert_case = "=0.6.0"
dirs = "=5.0.1"
dunce = "=1.0.5"
once_cell = "=1.21.4"
