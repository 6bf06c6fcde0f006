[package]
name = "render_bridge"
version = "0.1.0"
edition = "2021"
publish = false

[dependencies]
wgpu = "*"
pollster = "*"
bytemuck = "*"
tracing = "*"
tracing-subscriber = { version = "*", features = ["env-filter"] }
objc2 = "*"
objc2-foundation = "*"
objc2-app-kit = "*"
objc2-ui-kit = "*"
objc2-core-foundation = "*"
objc2-quartz-core = "*"
block2 = "*"
