[package]
name = "mailviewer"
version = "0.1.0"
edition = "2021"
publish = false

[dependencies]
gettext-rs = "0.7"
log = "0.4"
gtk4 = { version = "0.9", features = ["v4_10", "blueprint"] }
libadwaita = { version = "0.7", features = ["v1_6"] }
webkit6 = "0.4"
