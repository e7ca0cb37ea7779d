[package]
name = "bevy_wry"
version = "0.1.0"
edition = "2021"
publish = false

[dependencies]
bevy = { version = "=0.15.3", default-features = false, features = ["bevy_winit", "x11"] }
bincode = "=1.3.3"
hashbrown = "=0.14.5"
serde = { version = "=1.0.229", features = ["derive"] }
serde_json = "=1.0.154"
thiserror = "=2.0.21"
tungstenite = "=0.21.0"
winit = "=0.30.13"
x11-dl = "=2.21.0"
