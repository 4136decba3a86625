[package]
name = "lua2js"
version = "0.1.0"
edition = "2021"
publish = false

[dependencies]
lua_parser = "=0.10.0"
color-eyre = "=0.6.5"
rusty_lr = "=3.27.0"
rusty_lr_core = "=3.32.0"
rusty_lr_derive = "=2.35.0"
