[package]
name = "afrim_ibus"
version = "0.1.0"
edition = "2021"
publish = false

[dependencies]
afrim-config = "=0.4.8"
afrim-preprocessor = "=0.6.3"
afrim-translator = ">=0.2.0, <0.2.4"
anyhow = "=1.0.104"
env_logger = "=0.11.11"
log = "=0.4.34"
