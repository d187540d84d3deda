[package]
name = "hci_stream"
version = "0.1.0"
edition = "2021"
publish = false

[dependencies]
futures-core = "0.3"
futures-io = "0.3"
futures-util = "0.3"
