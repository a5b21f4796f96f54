[package]
name = "symmetry"
version = "0.1.0"
edition = "2021"
publish = false

[dependencies]
git2 = "*"
git2_credentials = "*"
crdts = "*"
serde = { version = "*", features = ["derive"] }
ron = "*"
dirs = "*"
native-dialog = "*"
