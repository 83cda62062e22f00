[package]
name = "piet_b"
version = "0.1.0"
edition = "2021"
publish = false

[dependencies]
piet = "=0.5.0"
glyph_brush_layout = "=0.2.4"
bevy = { version = "=0.7.0", default-features = false, features = ["render"] }
syn = { version = "=1.0.109", features = ["full", "derive", "extra-traits"] }
async-trait = "=0.1.50"
