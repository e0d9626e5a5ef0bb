[package]
name = "cpu_hotplug"
version = "0.1.0"
edition = "2021"
publish = false

[dependencies]
acpi_tables = "=0.2.1"
displaydoc = "=0.2.7"
kvm-ioctls = "=0.25.1"
libc = "=0.2.191"
log = "=0.4.35"
serde = { version = "=1.0.229", features = ["derive"] }
serde_json = "=1.0.154"
thiserror = "=2.0.21"
vm-allocator = "=0.1.4"
vmm-sys-util = "=0.15.0"
