[package]
name = "gst-plugin-ndi"
version = "0.1.0"
edition = "2021"
publish = false

[dependencies]
glib = "0.14"
gstreamer = "0.17"
gstreamer-base = "0.17"
gstreamer-audio = "0.17"
gstreamer-video = "0.17"
once_cell = "1"
byte-slice-cast = "1"
