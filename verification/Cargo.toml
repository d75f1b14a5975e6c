[package]
name = "lilcy"
version = "0.1.0"
edition = "2021"
publish = false

[dependencies]
iced-x86 = { version = "*", features = ["code_asm"] }
