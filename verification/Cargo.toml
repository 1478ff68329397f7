[package]
name = "bus2komsi"
version = "0.1.0"
edition = "2021"
publish = false

[dependencies]
configparser = "*"
serialport = { version = "*", default-features = false }
structopt = "*"
