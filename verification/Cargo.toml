[package]
name = "rdma_core"
version = "0.1.0"
edition = "2021"
publish = false

[dependencies]
flume = "*"
crossbeam-queue = "*"
log = "*"
thiserror = "*"
