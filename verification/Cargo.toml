[package]
name = "firecore_gui"
version = "0.1.0"
edition = "2021"
publish = false

[dependencies]
macroquad = "0.3"
image = { version = "0.24", default-features = false, features = ["png"] }
enum-map = "2"
serde = { version = "1", features = ["derive"] }
quad-gamepad = "0.2.0-alpha"
