[package]
name = "dialog_box"
version = "0.1.0"
edition = "2021"
publish = false

[dependencies]
ab_glyph = "0.2"
anyhow = "1"
clap = { version = "4", features = ["derive"] }
image = { version = "0.25", default-features = false, features = ["gif", "png"] }
imageproc = { version = "0.25", default-features = false }
