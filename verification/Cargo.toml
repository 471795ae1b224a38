[package]
name = "fractals"
version = "0.1.0"
edition = "2021"

[dependencies]
rayon = "1"
piston = "*"
piston2d-graphics = "*"
pistoncore-glutin_window = "*"
piston2d-opengl_graphics = "*"
