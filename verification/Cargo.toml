[package]
name = "musix"
version = "0.1.0"
edition = "2021"
publish = false

[dependencies]
crossterm = "0.28"
ratatui = "0.29"
rodio = "0.20"
symphonia = "0.5"
rand = "0.8"
