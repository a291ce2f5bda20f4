[package]
name = "psst_theme"
version = "0.1.0"
edition = "2021"
publish = false

[dependencies]
druid = "0.8"
directories = "5"
log = "0.4"
