[package]
name = "isascan"
version = "0.1.0"
edition = "2021"
publish = false

[dependencies]
iced-x86 = { version = "*", default-features = false, features = ["std", "decoder", "instr_info"] }
object = { version = "*", default-features = false, features = ["read", "std"] }
