[package]
name = "unavi_scripting"
version = "0.1.0"
edition = "2021"
publish = false

[dependencies]
anyhow = "=1.0.104"
axum = "=0.7.9"
bevy = { version = "=0.14.2", default-features = false }
clap = { version = "=4.6.7", features = ["derive"] }
directories = "=5.0.1"
serde = { version = "1", features = ["derive"] }
serde_json = "1"
tokio = { version = "=1.54.1", features = ["macros", "rt-multi-thread"] }
tracing = "=0.1.44"
wasm-bridge = { version = "=0.4.0", features = ["component-model"] }
wasm_component_layer = "=0.1.18"
wasm_runtime_layer = "=0.4.0"
wasmi_runtime_layer = "=0.31.0"
