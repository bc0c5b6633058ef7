[package]
name = "bevy_headless"
version = "0.1.0"
edition = "2021"
publish = false

[dependencies]
bevy_app = "0.13"
bevy_core = "0.13"
bevy_derive = "0.13"
bevy_ecs = "0.13"
bevy_ecs_macros = "0.13"
bevy_time = "0.13"
bevy_utils = "0.13"
crossterm = "0.27"
ratatui = "0.26"
tracing-subscriber = { version = "0.3", features = ["env-filter"] }
