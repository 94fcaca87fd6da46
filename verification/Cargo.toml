[package]
name = "sdf_csg"
version = "0.1.0"
edition = "2021"
publish = false

[dependencies]
anyhow = "1"
array_tool = "1"
console_log = "1"
isosurface = "0.0"
js-sys = "0.3"
log = "0.4"
nalgebra = "*"
nalgebra-glm = "*"
rhai = { version = "1", features = ["f32_float", "only_i32"] }
shadercanvas = "*"
wasm-bindgen = "0.2"
web-sys = { version = "0.3", features = ["Document", "Element", "EventTarget", "HtmlButtonElement", "HtmlCanvasElement", "HtmlTextAreaElement", "MouseEvent", "WebGl2RenderingContext", "WebGlBuffer", "WebGlProgram", "WebGlShader", "WebGlUniformLocation", "WheelEvent", "Window"] }
