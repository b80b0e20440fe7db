[package]
name = "quell"
version = "0.1.0"
edition = "2021"
publish = false

[dependencies]
bevy = { version = "*", default-features = false }
bevy_enhanced_input = { version = "*", default-features = false }
bevy-tnua = { version = "*", default-features = false }
bevy_asset_loader = { version = "*", default-features = false }
tiny_bail = "*"
clap = { version = "*", features = ["derive"] }
