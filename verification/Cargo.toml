[package]
name = "sensor_rt"
version = "0.1.0"
edition = "2021"
publish = false

[dependencies]
cudarc = { version = "=0.19.10", default-features = false, features = ["std", "driver", "nvrtc", "fallback-dynamic-loading", "fallback-latest", "cuda-version-from-build-system"] }
gstreamer = { version = "=0.21.3", default-features = false }
gstreamer-app = { version = "=0.21.2", default-features = false }
kornia-image = { version = "=0.2.0", default-features = false, features = ["cuda"] }
kornia-tensor = { version = "=0.2.0", default-features = false, features = ["cuda"] }
thiserror = "2"
