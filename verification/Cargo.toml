[package]
name = "qsv_count"
version = "0.1.0"
edition = "2021"
publish = false

[dependencies]
csv = "=1.4.0"
indicatif = "=0.18.6"
minijinja = { version = "=2.10.2", features = ["urlencode"] }
minijinja-contrib = { version = "=2.10.2", features = ["pycompat", "datetime", "timezone"] }
polars = { version = "=0.41.3", default-features = false, features = ["lazy", "csv", "streaming"] }
tempfile = "=3.27.0"
