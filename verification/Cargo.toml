[package]
name = "vecgen"
version = "0.1.0"
edition = "2021"
publish = false

[dependencies]
anyhow = "=1.0.104"
tera = { version = "=2.4.0", features = ["glob_fs"] }
git2 = { version = "=0.21.0", default-features = false }
