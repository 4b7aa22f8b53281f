[package]
name = "starry"
version = "0.1.0"
edition = "2021"
publish = false

[dependencies]
axerrno = "=0.2.2"
axfs-ng-vfs = "=0.8.1"
axlog = "=0.3.0-preview.3"
hashbrown = "=0.17.1"
memory_addr = "=0.4.1"
slab = "=0.4.12"
syscalls = { version = "=0.8.1", default-features = false }

[dev-dependencies]
linux-raw-sys = { version = "=0.12.1", default-features = false, features = ["general", "net", "ioctl", "no_std"] }
