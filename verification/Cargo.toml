[package]
name = "breeze_tool"
version = "0.1.0"
edition = "2021"
publish = false

[dependencies]
clap = "2"
env_logger = "0.3"
gdk = "0.5"
gdk-pixbuf = "0.1"
gtk = "0.1"
lazy_static = "0.2"
log = "0.3"
