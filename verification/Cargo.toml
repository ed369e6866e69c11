[package]
name = "luma_gx"
version = "0.1.0"
edition = "2021"
publish = false

[dependencies]
bitflags = "1.3"
linked_list_allocator = "0.10"
