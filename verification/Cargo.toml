[package]
name = "riff"
version = "0.1.0"
edition = "2021"
publish = false

[dependencies]
form_urlencoded = "=1.2.2"
futures = "=0.3.34"
gettext-rs = { version = "=0.7.7", features = ["gettext-system"] }
librespot = { version = "=0.8.0", default-features = false, features = ["rustls-tls-webpki-roots"] }
rand = "=0.8.8"
regex = "=1.13.1"
serde = { version = "=1.0.229", features = ["derive"] }
serde_json = "=1.0.154"
tokio = { version = "=1.54.1", features = ["rt", "macros", "time"] }
# Used by nothing here: librespot-core is built with vergen-gitcl, which does not
# compile with later versions of vergen.
vergen = { version = "=9.0.6", default-features = false }
