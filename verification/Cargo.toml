[package]
name = "timeln"
version = "0.1.0"
edition = "2021"
publish = false

[dependencies]
regex = "1"
colored = "2"
ctrlc = "3"
structopt = "0.3"
plotters = { version = "0.3", default-features = false, features = ["svg_backend", "line_series"] }
