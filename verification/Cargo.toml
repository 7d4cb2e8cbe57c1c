[package]
name = "model_manager"
version = "0.1.0"
edition = "2021"
publish = false

[dependencies]
winit = "0.25"
slog = "2"
sloggers = "2"
settings_path = "*"
tinyfiledialogs = "3"
