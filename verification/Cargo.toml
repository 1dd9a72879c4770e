[package]
name = "garnish_script"
version = "0.1.0"
edition = "2021"
publish = false

[dependencies]
garnish_lang = "=0.0.6-alpha"
garnish_lang_annotations_collector = "=0.5.0"
garnish_lang_utilities = "=0.5.0"
wasm-bindgen = "0.2"
