[package]
name = "leptos_bevy_canvas"
version = "0.1.0"
edition = "2021"
publish = false

[dependencies]
crossbeam-channel = "0.5"
bevy = { version = "0.17", default-features = false, features = ["bevy_state"] }
leptos = "0.8"
leptos-use = "0.16"
