[package]
name = "bevy_mod_yarn"
version = "0.1.0"
edition = "2021"
publish = false

[dependencies]
csv = "=1.4.0"
prost = "=0.7.0"
regex = "=1.13.1"
yharnam = "=0.0.1"
