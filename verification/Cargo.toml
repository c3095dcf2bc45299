[package]
name = "anyleaf"
version = "0.1.0"
edition = "2021"
publish = false

[dependencies]
ads1x1x = "=0.2.2"
embedded-hal = { version = "=0.2.7", features = ["unproven"] }
filter = "=0.2.0"
max31865 = "=0.1.1"
nalgebra = { version = "=0.21.1", default-features = false }
nb = "=1.1.0"
num-traits = { version = "=0.2.19", default-features = false }
