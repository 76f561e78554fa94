[package]
name = "canvas_core"
version = "0.1.0"
edition = "2021"
publish = false

[dependencies]
tiny-skia = "*"
lyon_geom = "*"
euclid = "*"
skrifa = "*"
app_units = "*"
