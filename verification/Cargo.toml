[package]
name = "mlb_parser"
version = "0.1.0"
edition = "2021"
publish = false

[dependencies]
rzozowski = "=0.1.3"

[dev-dependencies]
fancy-regex = "=0.19.2"
