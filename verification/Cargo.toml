[package]
name = "dicom"
version = "0.1.0"
edition = "2021"
publish = false

[dependencies]
byteorder = "1"
chrono = { version = "0.4", default-features = false, features = ["std"] }
image = { version = "0.23", default-features = false, features = ["png"] }
log = "0.4"
pretty_env_logger = "0.4"
thiserror = "1"
