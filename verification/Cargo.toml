[package]
name = "ya_music"
version = "0.1.0"
edition = "2021"
publish = false

[dependencies]
bytes = "1"
futures = "0.3"
hex = "0.4"
lazy_static = "1"
md5 = "0.7"
rand = "0.8"
reqwest = { version = "0.11", features = ["json"] }
rodio = "0.17"
serde = { version = "1", features = ["derive"] }
tokio = { version = "1", features = ["full"] }
xmltree = "0.10"
