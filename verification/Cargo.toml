[package]
name = "xtest_data"
version = "1.0.0"
edition = "2021"
publish = false

[dependencies]
clap = { version = "4", features = ["derive"] }
fs2 = "0.4"
nanorand = "0.7"
serde = { version = "1", features = ["derive"] }
tempdir = "0.3"
tinyjson = "2"
tinytemplate = "1"
toml = "0.5"
ureq = "2"
which = "4"
