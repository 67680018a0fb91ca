[package]
name = "snake_sim"
version = "0.1.0"
edition = "2021"
publish = false

[dependencies]
web-sys = { version = "=0.3.106", features = ["Window", "Document", "Element", "console"] }
wasm-bindgen = "=0.2.129"
js-sys = "=0.3.106"
bevy = { version = "=0.16.1", default-features = false, features = [
    "bevy_ui",
    "bevy_sprite",
    "bevy_text",
    "bevy_asset",
    "bevy_state",
    "bevy_core_pipeline",
    "bevy_render",
    "bevy_window",
    "png",
    "default_font",
] }
