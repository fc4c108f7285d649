[package]
name = "htmlarc_dom"
version = "0.1.0"
edition = "2021"
publish = false

[dependencies]
html-escape = "*"
indexmap = "*"
thiserror = "*"
