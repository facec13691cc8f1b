[package]
name = "bootc_status"
version = "0.1.0"
edition = "2021"
publish = false

[dependencies]
anyhow = "*"
canon-json = "*"
fn-error-context = "*"
ostree-ext = "*"
serde = { version = "*", features = ["derive"] }
serde_yaml = "*"
