[package]
name = "prueba1"
version = "0.1.0"
edition = "2021"
publish = false

[dependencies]
embedded-svc = "*"
esp-idf-svc = "*"
log = "*"
