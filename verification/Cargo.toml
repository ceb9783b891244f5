[package]
name = "hpo2gene_parser"
version = "0.1.0"
edition = "2021"
publish = false

[dependencies]
csv = "1"
ontolius = "*"

[dev-dependencies]
tempfile = "3"
