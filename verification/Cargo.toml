[package]
name = "task_tracker"
version = "0.1.0"
edition = "2021"
publish = false

[dependencies]
chrono = "=0.4.45"
crossterm = "=0.25.0"
tui = "=0.19.0"
diesel = { version = "=2.3.14", features = ["sqlite", "r2d2"] }
dotenv = "=0.15.0"
slog = "2"
slog-async = "2"
slog-envlogger = "2"
slog-json = "2"
slog-term = "2"
