[package]
name = "nblock"
version = "0.1.0"
edition = "2021"
publish = false

[dependencies]
crossbeam-queue = "0.3"
crossbeam-utils = "0.8"
once_cell = "1"
regex = "1"
spinning_top = "0.3"
