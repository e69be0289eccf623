[package]
name = "servo_pwm"
version = "0.1.0"
edition = "2021"
publish = false

[dependencies]
anyhow = "1"
embedded-hal = "0.2"
esp-idf-hal = "0.38"
esp-idf-sys = { version = "0.31", features = ["binstart"] }
num = "0.4"
