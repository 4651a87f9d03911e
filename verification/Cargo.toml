[package]
name = "gitops_manifests"
version = "0.1.0"
edition = "2021"
publish = false

[dependencies]
timpl-internal = "=0.1.0-alpha.2"
