[package]
name = "frui_flex"
version = "0.1.0"
edition = "2021"
publish = false

[dependencies]
druid-shell = { version = "*", default-features = false }
kurbo = "*"
proc-macro2 = "1"
quote = "1"
syn = { version = "1", features = ["full"] }
