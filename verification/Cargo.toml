[package]
name = "unitsel"
version = "0.1.0"
edition = "2021"
publish = false

[dependencies]
regex = "=1.13.1"
clap = { version = "4", features = ["derive", "env"] }
comfy-table = "*"
console = "*"
dialoguer = "*"
futures = "0.3"
itertools = "*"
tokio = { version = "1", features = ["macros", "rt-multi-thread"] }
users = "*"
zbus = { version = "=5.19.0", features = ["tokio"] }
zbus_systemd = { version = "=0.26200.0", features = ["systemd1", "zbus-async-tokio"] }
