[package]
name = "newdoc"
version = "0.1.0"
edition = "2021"
publish = false

[dependencies]
clap = "*"
color-eyre = "*"
log = "*"
