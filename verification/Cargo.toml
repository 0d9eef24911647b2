[package]
name = "magviz"
version = "0.1.0"
edition = "2021"
publish = false

[dependencies]
plotters = "=0.3.7"
plotters-backend = "=0.3.7"
plotters-bitmap = "=0.3.7"
rand = "=0.8.8"
