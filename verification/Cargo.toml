[package]
name = "kinematics_solver"
version = "0.1.0"
edition = "2021"
publish = false

[dependencies]
yew = "0.19"
wasm-bindgen = "0.2"
web-sys = { version = "0.3", features = ["HtmlInputElement", "HtmlCanvasElement", "CanvasRenderingContext2d"] }
