[package]
name = "rs_envflag"
version = "0.1.0"
edition = "2021"

[dependencies]
anyhow = "1"
