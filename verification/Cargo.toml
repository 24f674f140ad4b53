[package]
name = "catboard"
version = "0.1.0"
edition = "2021"
publish = false

[dependencies]
pdf_oxide = "=0.3.78"
# Not used directly: pdf_oxide 0.3.78 declares office_oxide ^0.1.9, but the
# 0.1.13 release added a field to a struct pdf_oxide initializes, so the
# newest compatible pick breaks pdf_oxide's build. This pin holds it at a
# version pdf_oxide compiles against.
office_oxide = { version = "=0.1.9", default-features = false }
arboard = "=3.6.1"
clap = { version = "=4.6.7", features = ["derive"] }
