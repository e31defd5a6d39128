[package]
name = "skiboot"
version = "0.1.0"
edition = "2021"
publish = false

[dependencies]
uuid = "*"
mpu6050-dmp = "*"
num_enum = "*"
thiserror = "*"
nmea0183 = "*"
anyhow = "*"
log = "*"
tracing = "*"
tracing-subscriber = "*"
tokio = { version = "*", features = ["rt-multi-thread", "time", "macros", "io-util"] }
tokio-stream = "*"
btleplug = "*"
cgmath = "*"
bytemuck = { version = "*", features = ["derive"] }
tobj = { version = "*", features = ["tokio"] }
winit = "*"
wgpu = "*"
