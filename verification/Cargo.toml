[package]
name = "shellshot"
version = "0.1.0"
edition = "2021"
publish = false

[dependencies]
termwiz = "=0.23.3"
unicode-width = "=0.2.2"
image = { version = "=0.25.10", default-features = false, features = ["png"] }
imageproc = { version = "=0.27.0", default-features = false, features = ["text"] }
ab_glyph = "=0.2.32"
tiny-skia = { version = "=0.12.0", default-features = false, features = ["std"] }
arboard = "=3.7.0"
clap = { version = "=4.6.7", features = ["derive"] }
thiserror = "=2.0.21"
tracing = "=0.1.44"
indicatif = "=0.18.6"
portable-pty = "=0.9.0"
yore = "=2.1.1"
