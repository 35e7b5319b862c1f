[package]
name = "android_clipboard"
version = "0.1.0"
edition = "2021"
publish = false

[dependencies]
jni = "0.21"
ndk-context = "0.1"
thiserror = "1"
