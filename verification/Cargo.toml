[package]
name = "sentry_tauri"
version = "0.1.0"
edition = "2021"
publish = false

[dependencies]
sentry = { version = "*", default-features = false }
sentry-backtrace = "*"
minidump-writer = "*"
libc = "*"
