[package]
name = "rubiks_cube"
version = "0.1.0"
edition = "2021"
publish = false

[dependencies]
rand = "0.8"
egui = "0.30"
eframe = "0.30"
