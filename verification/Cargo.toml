[package]
name = "launcher_core"
version = "0.1.0"
edition = "2021"
publish = false

[dependencies]
open = "5"
relm4 = { version = "0.6", features = ["macros", "libadwaita"] }
tracing = "0.1"
