[package]
name = "penguin_cannon"
version = "0.1.0"
edition = "2021"
publish = false

[dependencies]
bevy = { version = "=0.16.1", default-features = false, features = ["std", "async_executor", "multi_threaded", "bevy_asset", "bevy_color", "bevy_core_pipeline", "bevy_log", "bevy_pbr", "bevy_render", "bevy_state", "bevy_text", "bevy_ui", "bevy_window", "default_font"] }
js-sys = "=0.3.107"
wasm-bindgen = "=0.2.130"
