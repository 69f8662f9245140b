[package]
name = "wallrus"
version = "0.1.0"
edition = "2021"
publish = false

[dependencies]
chrono = "0.4"
clap = { version = "4", features = ["derive"] }
dotenv = "0.15"
futures-util = "0.3"
image = { version = "0.24", default-features = false, features = ["jpeg", "png"] }
indicatif = "0.17"
plotters = { version = "0.3", default-features = false, features = ["bitmap_backend", "bitmap_encoder", "point_series"] }
rand = "0.8"
reqwest = { version = "0.11", default-features = false, features = ["json", "stream", "rustls-tls"] }
serde = { version = "1", features = ["derive"] }
serde_json = "1"
smithay-client-toolkit = { version = "0.19", default-features = false }
thiserror = "1"
tokio = { version = "1", features = ["macros", "rt-multi-thread", "fs", "io-util"] }
wayland-client = "0.31"
winapi = { version = "0.3", features = ["winuser"] }

[dev-dependencies]
tempfile = "3"
