[package]
name = "bbq10kbd"
version = "0.1.0"
edition = "2021"
publish = false

[dependencies]
embedded-hal = "0.2"
embedded-hal-async = "1"
