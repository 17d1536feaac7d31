[package]
name = "ready_gate"
version = "0.1.0"
edition = "2021"
publish = false

[dependencies]
crossbeam-utils = "*"
parking_lot = "*"
lock_api = "*"
