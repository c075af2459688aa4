[package]
name = "job_supervisor"
version = "0.1.0"
edition = "2021"
publish = false

[dependencies]
duct = "0.12"
