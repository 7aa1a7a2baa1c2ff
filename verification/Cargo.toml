[package]
name = "findgrep"
version = "0.1.0"
edition = "2021"
publish = false

[dependencies]
regex = "*"
grep-regex = "*"
grep-matcher = "*"
grep-searcher = "*"
ignore = "*"
crossbeam-channel = "*"

[dev-dependencies]
tempfile = "*"
