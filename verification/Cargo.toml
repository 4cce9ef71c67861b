[package]
name = "scene_bot"
version = "0.1.0"
edition = "2021"
publish = false

[dependencies]
image = "0.24"
fast_image_resize = "2"
reqwest = { version = "0.11", default-features = false, features = ["rustls-tls"] }
tokio = { version = "1", features = ["macros", "rt-multi-thread", "sync"] }
mongodb = "2"
bson = "2"
serde = { version = "1", features = ["derive"] }
