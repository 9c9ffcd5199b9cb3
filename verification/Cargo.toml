[package]
name = "woodix"
version = "0.1.0"
edition = "2021"
publish = false

[dependencies]
volatile = "0.2.7"
uefi = "0.28"
uefi-services = { version = "0.25", default-features = false }
