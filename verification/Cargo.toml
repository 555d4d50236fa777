[package]
name = "glint"
version = "0.1.0"
edition = "2021"
publish = false

[dependencies]
pulldown-cmark = { version = "*", default-features = false }
toml = "*"
shellexpand = "*"
dirs = "*"
notify = "*"
gtk4 = "*"
gtk4-layer-shell = "*"
