[package]
name = "nav2_traffic"
version = "0.1.0"
edition = "2021"
publish = false

[dependencies]
uuid = { version = "1", features = ["v4"] }
serde = { version = "1", features = ["derive"] }
thiserror = "*"
futures = "0.3"
tokio = { version = "1", features = ["sync"] }
crossbeam = "0.8"
nalgebra = "*"
reqwest = { version = "*", default-features = false, features = ["blocking", "json"] }
rosidl_runtime_rs = "*"
rclrs = "*"
crossflow = "*"
mapf = "*"
bevy = { version = "0.16", default-features = false, features = ["std", "bevy_log"] }
