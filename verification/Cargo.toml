[package]
name = "image_compressor"
version = "0.1.0"
edition = "2021"
publish = false

[dependencies]
image = { version = "=0.24.9", default-features = false, features = ["jpeg", "png"] }
# Not called directly. `image` decodes JPEG through this crate, which by default
# picks SIMD routines by CPU whose rounding differs from the plain code. The
# feature compiles them out, so that the same bytes decode to the same pixels
# on every machine, as the contracts of the decoder assume.
jpeg-decoder = { version = "=0.3.2", default-features = false, features = ["platform_independent"] }
wasm-bindgen = "=0.2.129"
web-sys = { version = "=0.3.106", features = ["Window", "Location"] }
console_error_panic_hook = "=0.1.7"
