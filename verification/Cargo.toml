[package]
name = "fmt"
version = "0.1.0"
edition = "2021"
publish = false

[dependencies]
ansi_term = "*"
serde = "*"
serde_json = "*"
