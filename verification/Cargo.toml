[package]
name = "melon_bootstrap"
version = "0.1.0"
edition = "2021"
publish = false

[dependencies]
md5 = "=0.8.1"
chrono = "=0.4.45"
jni = "=0.21.1"
libc = "=0.2.190"
ctor = "=1.0.13"
lazy_static = "=1.5.1"
netcorehost = { version = "=0.22.0", default-features = false, features = ["net8_0"] }
