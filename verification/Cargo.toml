[package]
name = "netlink_packet_audit"
version = "0.1.0"
edition = "2021"
publish = false

[dependencies]
netlink-packet-core = "*"
netlink-packet-utils = "*"
