[package]
name = "depot_gbk"
version = "0.1.0"
edition = "2021"
publish = false

[dependencies]
chardet = "0.2"
clap = "4"
