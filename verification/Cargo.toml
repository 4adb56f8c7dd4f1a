[package]
name = "speed_matrix"
version = "0.1.0"
edition = "2021"
publish = false

[dependencies]
async-std = "*"
bytesize = "1"
chrono = "*"
reqwest = "*"
termion = "*"
tokio = { version = "*", features = ["macros", "rt-multi-thread", "time"] }
