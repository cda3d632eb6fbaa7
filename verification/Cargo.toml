[package]
name = "archive_hasher"
version = "0.1.0"
edition = "2021"
publish = false

[dependencies]
clap = { version = "=4.6.7", features = ["derive"] }
flate2 = "=1.1.10"
infer = "=0.22.0"
md-5 = "=0.11.0"
rpassword = "=7.5.4"
sevenz-rust2 = { version = "*", features = ["aes256"] }
sha1 = "=0.11.0"
sha2 = "=0.11.0"
tabular = "=0.2.0"
tar = "=0.4.46"
zip = "=8.6.0"

[dev-dependencies]
sevenz-rust = { version = "=0.6.1", features = ["aes256"] }
