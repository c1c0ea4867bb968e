[package]
name = "tui_obj"
version = "0.1.0"
edition = "2021"
publish = false

[dependencies]
crossterm = "0.27"
ratatui = "0.23"
tobj = "4.0"
