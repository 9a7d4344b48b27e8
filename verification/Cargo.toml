[package]
name = "marlu"
version = "0.1.0"
edition = "2021"
publish = false

[dependencies]
approx = "0.5"
erfa-sys = "*"
hifitime = "3"
indicatif = "0.17"
itertools = "0.10"
log = "0.4"
mwalib = "*"
ndarray = "0.15"
num-complex = "0.4"
num-traits = "0.2"
rayon = "1"
thiserror = "1"
