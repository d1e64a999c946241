[package]
name = "thurston"
version = "0.1.0"
edition = "2021"
publish = false

[dependencies]
nalgebra = "=0.32.6"
statrs = "=0.17.1"
rand = "=0.8.8"
rand_distr = "=0.4.3"
argmin = "=0.10.0"
argmin-math = { version = "=0.4.0", features = ["nalgebra_latest"] }
ordered-float = "=4.6.0"
