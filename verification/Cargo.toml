[package]
name = "cio"
version = "0.1.0"
edition = "2021"
publish = false

[dependencies]
base64 = "=0.13.1"
chrono = "=0.4.45"
diffy = "=0.2.2"
futures-util = "=0.3.34"
hubcaps = { version = "=0.6.2", features = ["httpcache"] }
nom_pem = "=4.0.0"
reqwest = "=0.10.10"
tracing = "=0.1.44"
yup-oauth2 = "=4.1.4"
