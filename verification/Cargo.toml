[package]
name = "thread_watcher"
version = "0.1.0"
edition = "2021"
publish = false

[dependencies]
async-std = "1"
futures-core = "0.3"
iced = "0.3"
iced_native = "0.4"
