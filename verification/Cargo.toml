[package]
name = "azul"
version = "0.1.0"
edition = "2021"
publish = false

[dependencies]
# webrender_api 0.58 reads `bincode::IoReader`, which later 1.x releases no longer export.
bincode = "=1.0.1"
glium = "=0.24.0"
# Only the formats whose decoders can be relied on; `src/images.rs` says why not the others.
image = { version = "=0.25.10", default-features = false, features = ["ff", "png", "tga"] }
webrender_api = "=0.58.0"
