[package]
name = "cycle_list"
version = "0.1.0"
edition = "2021"
publish = false

[dependencies]
leptos = "*"
default-struct-builder = "*"
