[package]
name = "mycitadel"
version = "0.1.0"
edition = "2021"
publish = false

[dependencies]
gtk = "0.15"
relm = "0.23"
relm-derive = "0.23"
