[package]
name = "winamp_skin"
version = "0.1.0"
edition = "2021"
publish = false

[dependencies]
zip = { version = "0.5", default-features = false, features = ["deflate"] }
image = { version = "0.23", default-features = false, features = ["bmp"] }
fixed-map = "0.7"
thiserror = "1.0"
structopt = "0.3"
eframe = "0.14"
strum_macros = "0.21"
codegen = "0.1"
