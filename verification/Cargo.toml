[package]
name = "fractal"
version = "0.1.0"
edition = "2021"
publish = false

[dependencies]
url = "=2.5.8"
serde = { version = "=1.0.229", features = ["derive"] }
serde_json = "=1.0.154"
chrono = "=0.4.45"
reqwest = { version = "=0.13.5", default-features = false }
ruma-identifiers = { version = "=0.22.1", features = ["rand"] }
glib = "=0.18.5"
gio = "=0.18.4"
gtk = "=0.18.2"
gdk-pixbuf = "=0.18.5"
gspell = "=0.7.0"
libhandy = "=0.11.1"
