[package]
name = "kvbench"
version = "0.1.0"
edition = "2021"
publish = false

[dependencies]
rand = "0.8"
hashbrown = "*"
sled = "*"
redb = "*"
tempfile = "3"
libmdbx = "*"
