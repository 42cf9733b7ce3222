[package]
name = "veloconv"
version = "0.1.0"
edition = "2021"
publish = false

[dependencies]
getopts = "0.2"
hdf5 = "*"
pcap-parser = "*"
