[package]
name = "tcpst"
version = "0.1.0"
edition = "2021"
publish = false

[dependencies]
crossbeam-channel = "=0.5.17"
etherparse = "=0.13.0"
mpstthree = { version = "=0.1.17", features = ["mpst"] }
pnet = "=0.34.0"
rand = "=0.8.8"
raw-socket = "=0.0.2"
smoltcp = "=0.10.0"
tun-tap = { version = "=0.1.4", default-features = false }
