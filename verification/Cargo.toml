[package]
name = "hush"
version = "0.1.0"
edition = "2021"
publish = false

[dependencies]
serde = { version = "1", features = ["derive"] }
serde_json = "1"
zeroize = "1"
libc = "0.2"
tokio = { version = "1", features = ["rt-multi-thread"] }
zbus = { version = "5", default-features = false, features = ["tokio"] }
iced = { version = "0.14", default-features = false, features = ["tiny-skia", "svg", "canvas"] }
