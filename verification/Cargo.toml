[package]
name = "socket_registry"
version = "0.1.0"
edition = "2021"
publish = false

[dependencies]
spin = { version = "=0.9.9", default-features = false, features = ["rwlock"] }
managed = "=0.8.0"
libc = "=0.2.191"
