[package]
name = "mend"
version = "0.1.0"
edition = "2021"
publish = false

[dependencies]
gdk = "0.13"
gio = "0.9"
gtk = "0.9"
sourceview = { version = "0.9", features = ["v3_22"] }
