[package]
name = "jni_utils"
version = "0.1.0"
edition = "2021"
publish = false

[dependencies]
jni = "=0.12.3"
