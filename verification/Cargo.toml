[package]
name = "webkit"
version = "26.1.0"
edition = "2021"
publish = false

[dependencies]
serde = { version = "1", features = ["derive"] }
serde_json = "1"
glib = "*"
gio = "*"
gtk4 = "*"
webkit6 = "*"
webkit6-sys = "*"
soup3 = "*"
javascriptcore6 = "*"
