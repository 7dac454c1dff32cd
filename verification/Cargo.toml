[package]
name = "service"
version = "0.1.0"
edition = "2021"
publish = false

[dependencies]
futures = "0.3"
gotham = { version = "0.7", default-features = false, features = ["derive"] }
gotham_derive = "0.7"
hyper = "0.14"
librespot-core = "0.4.2"
librespot-metadata = "0.4.2"
log = "0.4"
mime = "0.3"
serde = "1"
serde_derive = "1"
serde_json = { version = "1", features = ["preserve_order"] }
