[package]
name = "plot_graph"
version = "0.1.0"
edition = "2021"
publish = false

[dependencies]
colorous = "1"
plotters = "0.3"
minifb = "*"
rand = "0.8"
