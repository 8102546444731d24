[package]
name = "present_engine"
version = "0.1.0"
edition = "2021"
publish = false

[dependencies]
cgmath = "=0.16.1"
image = "=0.19.0"
lazy_static = "=1.5.1"
smallvec = "=0.6.14"
voodoo = "=0.3.1"
winit = "=0.18.1"
