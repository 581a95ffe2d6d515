[package]
name = "purpl_render"
version = "0.1.0"
edition = "2021"
publish = false

[dependencies]
ash = "0.37"
log = "0.4"
nalgebra = "0.32"
tobj = "4"
vk-mem = "0.3"
xcb = "1"
