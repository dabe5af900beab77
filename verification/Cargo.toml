[package]
name = "oast_client"
version = "0.1.0"
edition = "2021"
publish = false

[dependencies]
async-std = "=1.13.2"
interactsh-rs = "=0.3.1"
mlua = { version = ">=0.8, <0.10", features = ["lua54", "module", "async"] }
tealr = { version = "=0.9.1", features = ["mlua_lua54", "mlua_module", "mlua_async"] }
