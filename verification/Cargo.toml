[package]
name = "sqlx_testing"
version = "0.1.0"
edition = "2021"
publish = false

[dependencies]
base64 = "0.22"
dotenvy = "0.15"
sha2 = "0.10"
