[package]
name = "esc"
version = "0.1.0"
edition = "2021"
publish = false

[dependencies]
mailparse = "=0.17.0"
tantivy = "=0.26.2"
walkdir = "=2.5.0"
crossbeam = "=0.8.5"
structopt = "=0.3.26"

[dev-dependencies]
tempfile = "*"
