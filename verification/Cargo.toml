[package]
name = "prqldoc"
version = "0.1.0"
edition = "2021"
publish = false

[dependencies]
ansi-to-html = "=0.1.3"
anstream = "=0.3.2"
prql-compiler = "=0.9.5"
pulldown-cmark = { version = "=0.9.6", default-features = false }
pulldown-cmark-to-cmark = "=10.0.4"
