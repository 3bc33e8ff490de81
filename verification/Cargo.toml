[package]
name = "redoxfs_mount"
version = "0.1.0"
edition = "2021"
publish = false

[dependencies]
libc = "0.2"
redox_syscall = "0.1"
redoxfs = "0.3"
uuid = "0.5"
