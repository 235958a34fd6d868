[package]
name = "font_face"
version = "0.1.0"
edition = "2021"
publish = false

[dependencies]
read-fonts = "=0.38.0"
smallvec = "=1.16.4"
bytemuck = { version = "=1.25.2", features = ["derive"] }
