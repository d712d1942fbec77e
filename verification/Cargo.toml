[package]
name = "laporan_bulanan"
version = "0.1.0"
edition = "2021"
publish = false

[dependencies]
chrono = "=0.4.45"
rusqlite = { version = "=0.41.1", features = ["bundled"] }
rust_xlsxwriter = { version = "=0.102.0", default-features = false }
genpdf = { version = "=0.2.0", default-features = false, features = ["images"] }
slint = { version = "=1.18.1", default-features = false, features = ["std", "compat-1-2"] }
