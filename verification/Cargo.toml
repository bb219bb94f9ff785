[package]
name = "conduit_hyper"
version = "0.1.0"
edition = "2021"
publish = false

[dependencies]
conduit = "*"
futures = "0.3"
http = "0.2"
hyper = "0.14"
percent-encoding = "2"
