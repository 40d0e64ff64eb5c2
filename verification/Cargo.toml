[package]
name = "brokkr"
version = "0.1.0"
edition = "2021"
publish = false

[dependencies]
sha2 = "=0.10.9"
ml-dsa = "=0.1.2"
fips205 = "*"
ml-kem = { version = "=0.3.4", features = ["hazmat"] }
aes-gcm = "=0.11.1"
rand_core = { version = "=0.6.4", features = ["getrandom"] }
