[package]
name = "termview"
version = "0.1.0"
edition = "2021"
publish = false

[dependencies]
image = "0.25"
resvg = "0.48"
usvg = "0.48"
docopt = "1.1"
serde = { version = "1.0", features = ["derive"] }
terminal_size = "0.4"
