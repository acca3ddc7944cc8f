[package]
name = "open_timeline_gui"
version = "0.1.0"
edition = "2021"
publish = false

[dependencies]
bool-tag-expr = "=0.1.0-beta.2"
tokio = { version = "1", features = ["sync"] }
directories-next = "2"
serde = { version = "1", features = ["derive"] }
serde_json = "1"
egui = "0.31"
log = "0.4"
