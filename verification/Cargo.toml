[package]
name = "camera_pixel_format"
version = "0.1.0"
edition = "2021"
publish = false

[dependencies]
drm-fourcc = "2.2"
libc = "0.2"
libcamera-sys = "*"
