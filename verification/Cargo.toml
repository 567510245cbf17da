[package]
name = "iced_aw"
version = "0.1.0"
edition = "2021"
publish = false

[dependencies]
chrono = "=0.4.45"
iced_native = "0.4"
iced_graphics = { version = "0.2", features = ["canvas"] }
iced_widget = "=0.1.3"
