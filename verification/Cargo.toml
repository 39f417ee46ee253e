[package]
name = "blingfire"
version = "0.1.0"
edition = "2021"
publish = false

[dependencies]
blingfire-sys = "*"
rayon = "1"
snafu = "0.6"
