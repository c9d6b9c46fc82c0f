[package]
name = "jetporch"
version = "0.1.0"
edition = "2021"
publish = false

[dependencies]
handlebars = "=4.5.0"
once_cell = "=1.21.4"
serde = { version = "=1.0.229", features = ["derive"] }
serde_yaml = "=0.9.34"
sha2 = "0.10"
