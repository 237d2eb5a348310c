[package]
name = "lwtray"
version = "0.1.0"
edition = "2021"
publish = false

[dependencies]
execute = "=0.2.15"
ksni = "=0.2.2"
rust-embed = "5"
translation = "=1.0.2"
