[package]
name = "gb_core"
version = "0.1.0"
edition = "2021"
publish = false

[dependencies]
clap = { version = "4", features = ["derive"] }
rayon = "1"
fastrand = "2"
md5 = "0.7"
