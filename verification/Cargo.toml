[package]
name = "hir_adt"
version = "0.1.0"
edition = "2021"
publish = false

[dependencies]
ra_syntax = "*"
