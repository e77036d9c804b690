[package]
name = "grm"
version = "0.1.0"
edition = "2021"
publish = false

[dependencies]
url = "*"
git2 = "*"
git2_credentials = "*"
structopt = "*"
dirs = "*"
walkdir = "*"
regex = "*"
pathdiff = "*"
