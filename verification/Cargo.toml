[package]
name = "mpv_engine"
version = "0.1.0"
edition = "2021"
publish = false

[dependencies]
rsmpv = { version = "=0.2.1", features = ["render"] }
libc = "=0.2.191"
parking_lot = "=0.12.5"
tracing = "0.1"
thiserror = "2"
ash = "=0.38.0"
wgpu = "=30.0.1"
wgpu-hal = { version = "=30.0.1", features = ["vulkan", "metal", "dx12"] }
objc2 = "=0.6.5"
objc2-io-surface = "=0.3.2"
objc2-metal = "=0.3.2"
windows = { version = "=0.62.2", features = ["Win32_Foundation", "Win32_Graphics_Direct3D12"] }
