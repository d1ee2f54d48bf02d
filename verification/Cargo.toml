[package]
name = "arceos_posix_api"
version = "0.1.0"
edition = "2021"
publish = false

[dependencies]
axalloc = "=0.3.0-preview.3"
axerrno = "=0.2.2"
axfs = "=0.3.0-preview.3"
axhal = { version = "=0.3.0-preview.3", features = ["irq"] }
axio = "=0.2.1"
axlog = "=0.3.0-preview.3"
axsync = { version = "=0.3.0-preview.3", features = ["multitask"] }
axtask = { version = "=0.3.0-preview.3", features = ["multitask", "irq"] }
lazy_static = "=1.5.1"
spin = "=0.10.1"
