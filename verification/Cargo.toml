[package]
name = "plotters_ratatui_backend"
version = "0.1.0"
edition = "2021"
publish = false

[dependencies]
ratatui = "0.26"
plotters = { version = "0.3", default-features = false }
plotters-backend = "0.3"
log = "0.4"
thiserror = "1"
