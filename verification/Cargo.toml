[package]
name = "dnsping"
version = "0.1.0"
edition = "2021"
publish = false

[dependencies]
ctrlc = "3"
dns-lookup = "1"
dns-parser = "0.8"
socks = "0.3"
structopt = "0.3"
