[package]
name = "layer_sharing"
version = "0.1.0"
edition = "2021"
publish = false

[dependencies]
anyhow = "1"
serde = { version = "1", features = ["derive"] }
ipc-channel = "*"
winit = { version = "=0.30.13", default-features = false, features = ["rwh_06", "x11"] }
raw-window-handle = "0.6"
objc2 = "0.6"
objc2-app-kit = { version = "=0.3.2", default-features = false, features = ["std", "NSApplication", "NSResponder", "NSView", "NSWindow", "NSGraphics", "objc2-core-foundation"] }
objc2-core-foundation = { version = "=0.3.2", default-features = false, features = ["std", "CFCGTypes"] }
objc2-quartz-core = { version = "=0.3.2", default-features = false, features = ["std", "CALayer", "objc2-core-foundation"] }
cef = "*"
