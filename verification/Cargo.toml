[package]
name = "heronote_audio"
version = "0.1.0"
edition = "2021"
publish = false

[dependencies]
ringbuf = "0.4"
directories = "*"
chrono = "0.4"
hound = "*"
