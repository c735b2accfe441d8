[package]
name = "android_vulkan_interop"
version = "0.1.0"
edition = "2021"
publish = false

[dependencies]
android_logger = "0.13"
jni = "0.21"
libloading = "0.8"
log = "0.4"
ndk = { version = "0.8", features = ["api-level-30"] }
ndk-sys = { version = "0.5", features = ["test"] }
rustix = { version = "0.38", features = ["pipe", "stdio"] }
