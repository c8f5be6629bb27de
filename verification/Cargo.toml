[package]
name = "gunday"
version = "0.1.0"
edition = "2021"
publish = false

[dependencies]
fastrand = "2"
wasm-bindgen = "0.2"
bevy = { version = "0.16", default-features = false, features = ["bevy_sprite", "bevy_audio", "bevy_window", "bevy_asset", "bevy_render"] }
