[package]
name = "route_transitions"
version = "0.1.0"
edition = "2021"
publish = false

[dependencies]
dioxus = { version = "=0.6.3", features = ["router"] }
dioxus-motion = "0.2.3"
