[package]
name = "ritm"
version = "0.1.0"
edition = "2021"
publish = false

[dependencies]
aarch64-paging = "=0.12.3"
aarch64-rt = { version = "=0.4.3", default-features = false, features = ["el2", "exceptions", "psci"] }
arm-psci = "=0.2.0"
arm-sysregs = { version = "=0.3.3", features = ["el2"] }
arrayvec = { version = "=0.7.8", default-features = false }
log = "=0.4.35"
smccc = "=0.2.3"
spin = "=0.12.3"
thiserror = { version = "=2.0.21", default-features = false }
