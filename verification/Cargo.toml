[package]
name = "dom5_save_scummer"
version = "0.1.0"
edition = "2021"
publish = false

[dependencies]
directories = "4"
notify = "4"
