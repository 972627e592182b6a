[package]
name = "material_theme"
version = "0.1.0"
edition = "2021"
publish = false

[dependencies]
clap = { version = "4", features = ["derive"] }
material-colors = { version = "*", features = ["image", "serde"] }
serde_json = "1"
