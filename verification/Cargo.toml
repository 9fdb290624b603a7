[package]
name = "buddy"
version = "0.1.0"
edition = "2021"
publish = false

[dependencies]
rand = "0.8"
clap = { version = "*", features = ["derive"] }
clap-num = "*"
confy = "*"
regex = "*"
serde = { version = "*", features = ["derive"] }
serde_derive = "*"
signal-hook = "*"
thiserror = "*"
gtk4 = "*"
gdk4 = "*"
glib = "*"
gio = "*"
gtk4-layer-shell = "*"
