[package]
name = "nebula"
version = "0.1.0"
edition = "2021"
publish = false

[dependencies]
uom = "*"
rand = "*"
rand_chacha = "*"
rand_seeder = "*"
num = "*"
colortemp = "*"
serde = { version = "*", features = ["derive"] }
