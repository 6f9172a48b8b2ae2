[package]
name = "extmem_harness"
version = "0.1.0"
edition = "2021"
publish = false

[dependencies]
gfx-hal = "0.9"
gfx-backend-vulkan = "0.9"
log = "0.4"
env_logger = "*"
