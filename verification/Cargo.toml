[package]
name = "c_bindgen"
version = "0.1.0"
edition = "2021"
publish = false

[dependencies]
lang-c = "=0.15.1"
string-builder = "*"
