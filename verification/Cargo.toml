[package]
name = "yaffe_plex"
version = "0.1.0"
edition = "2021"
publish = false

[dependencies]
roxmltree = "=0.21.1"
reqwest = { version = "=0.13.5", default-features = false, features = ["blocking", "query"] }
