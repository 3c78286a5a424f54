[package]
name = "vmm_core"
version = "0.1.0"
edition = "2021"
publish = false

[dependencies]
acpi_tables = "*"
anyhow = "*"
epoll = "*"
libc = "*"
linux-loader = { version = "*", features = ["bzimage"] }
log = "*"
seccompiler = "*"
serde = { version = "*", features = ["derive"] }
serde_json = "*"
signal-hook = "*"
thiserror = "*"
vm-memory = { version = "*", features = ["backend-mmap", "backend-atomic", "backend-bitmap"] }
vmm-sys-util = "*"
zerocopy = { version = "*", features = ["derive"] }
