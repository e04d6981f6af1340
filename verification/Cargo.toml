[package]
name = "branchswitch"
version = "0.1.0"
edition = "2021"

[dependencies]
sha1 = "0.6"
