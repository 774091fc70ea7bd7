[package]
name = "webrender_traits"
version = "0.1.0"
edition = "2021"
publish = false

[dependencies]
euclid = "=0.22.14"
surfman = "=0.7.2"
surfman-chains = "=0.8.0"
webrender_api = "=0.70.0"
