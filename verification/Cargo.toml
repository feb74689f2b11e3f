[package]
name = "vowlr"
version = "0.1.0"
edition = "2021"
publish = false

[dependencies]
env_logger = "*"
fluent-uri = "=0.4.1"
futures = "*"
horned-owl = "*"
leptos = "*"
leptos-use = "*"
log = "*"
oxrdf = "=0.3.5"
tempfile = "*"
tokio = { version = "*", features = ["rt-multi-thread", "macros"] }
web-sys = "*"
