[package]
name = "numsim"
version = "0.1.0"
edition = "2021"
publish = false

[dependencies]
find_peaks = "*"
ode_solvers = "*"
rustfft = "*"
plotters = { version = "*", default-features = false, features = ["bitmap_backend", "bitmap_encoder", "ab_glyph", "line_series"] }
