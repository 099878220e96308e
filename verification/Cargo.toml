[package]
name = "rtnetlink"
version = "0.1.0"
edition = "2021"
publish = false

[dependencies]
futures = "=0.3.34"
futures-util = "=0.3.34"
netlink-packet-core = "0.8"
netlink-packet-route = "=0.26.0"
netlink-proto = "0.13"
