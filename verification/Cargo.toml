[package]
name = "backend_gstreamer"
version = "0.1.0"
edition = "2021"
publish = false

[dependencies]
gstreamer = "0.21"
gstreamer-app = "0.21"
glib = "0.18"
crossbeam-channel = "0.5"
num-rational = "0.4"
url = "2"
thiserror = "1"
