[package]
name = "gc_list"
version = "0.1.0"
edition = "2021"

[dev-dependencies]
heapless = "0.8"
