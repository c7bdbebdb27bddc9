[package]
name = "cucumber_thirtyfour_worlder"
version = "0.1.0"
edition = "2021"
publish = false

[dependencies]
thirtyfour = "=0.35.0"
cucumber = "=0.21.1"
proc-macro2 = "=1.0.107"
quote = "=1.0.47"

[dev-dependencies]
reqwest = "=0.12.28"
