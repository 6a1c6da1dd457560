[package]
name = "dma_transfer"
version = "0.1.0"
edition = "2021"
publish = false

[dependencies]
as-slice = "*"
