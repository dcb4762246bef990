[package]
name = "browser_supervisor"
version = "0.1.0"
edition = "2021"
publish = false

[dependencies]
chrome_launcher = "=0.1.2"
git2 = "0.20"
