[package]
name = "psicasbi"
version = "0.1.0"
edition = "2021"
publish = false

[dependencies]
riscv = "0.7"
k210-pac = { version = "0.2", default-features = false }
spin = "0.9"
buddy_system_allocator = "0.8"
r0 = "1.0"
