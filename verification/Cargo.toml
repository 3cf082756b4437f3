[package]
name = "haxir"
version = "0.1.0"
edition = "2021"
publish = false

[dependencies]
async-std = "1"
chromiumoxide = "0.5"
futures = "0.3"
rustler = "0.29"
