[package]
name = "panel_stack"
version = "0.1.0"
edition = "2021"
publish = false

[dependencies]
async_event_streams = "=0.1.4"
async_event_streams_derive = "=0.1.0"
async_object = "=0.1.2"
async-std = "=1.13.2"
async-trait = "=0.1.92"
float-ord = "=0.3.2"
futures = "=0.3.34"
thiserror = "=1.0.69"
typed-builder = "=0.10.0"
windows = { version = "=0.48.0", features = ["Foundation", "Foundation_Collections", "Foundation_Numerics", "Graphics", "Graphics_DirectX", "UI", "UI_Composition"] }
winit = "=0.27.5"
