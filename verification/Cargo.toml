[package]
name = "retain"
version = "0.1.0"
edition = "2021"
publish = false

[dependencies]
rustc-hash = "=2.1.3"
rtrb = "=0.4.1"
num-complex = "=0.4.6"
realfft = "=3.5.1"
serde = { version = "=1.0.229", features = ["derive"] }
serde_json = "=1.0.154"
atomic_float = "=1.1.0"
clack-plugin = "=0.2.0"
clack-extensions = { version = "=0.2.0", features = ["clack-plugin", "audio-ports", "params", "state", "gui", "latency", "raw-window-handle_06"] }
baseview = "=0.4.2"
egui-baseview = "=0.9.0"
nice-plug = "=0.4.2"
nice-plug-egui = "=0.6.0"
egui = "=0.37.0"
