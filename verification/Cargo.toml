[package]
name = "ascii_term"
version = "0.1.0"
edition = "2021"
publish = false

[dependencies]
clap = { version = "=4.6.7", features = ["derive"] }
crossbeam-channel = "=0.5.17"
crossterm = "=0.28.1"
fast_image_resize = "=5.5.0"
ffmpeg-next = { version = "7", default-features = false, features = ["codec", "format", "software-scaling"] }
futures-util = "=0.3.34"
image = { version = "=0.25.10", default-features = false, features = ["png", "jpeg", "gif", "bmp"] }
opencv = { version = "0.94", default-features = false, features = ["imgproc"] }
reqwest = { version = "=0.12.28", features = ["stream"] }
serde = { version = "=1.0.229", features = ["derive"] }
serde_json = "=1.0.154"
tempfile = "=3.27.0"
thiserror = "=1.0.69"
tokio = { version = "=1.54.1", features = ["rt-multi-thread", "macros", "time", "process"] }
url = "=2.5.8"
