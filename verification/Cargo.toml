[package]
name = "room_member"
version = "0.1.0"
edition = "2021"
publish = false

[dependencies]
js_int = "0.1"
