[package]
name = "desktop_notes_display"
version = "0.1.0"
edition = "2021"
publish = false

[dependencies]
axum = "0.7"
tokio = { version = "1", features = ["macros", "rt-multi-thread", "net"] }
embedded-graphics = "0.8"

[dev-dependencies]
regex = "1"
embedded-graphics = "0.8"
