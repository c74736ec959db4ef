[package]
name = "web_serial_logger"
version = "0.1.0"
edition = "2021"
publish = false

[dependencies]
futures = "0.3"
js-sys = "0.3"
pin-project-lite = "0.2"
wasm-bindgen = "0.2"
wasm-bindgen-futures = "0.4"

[dependencies.web-sys]
version = "0.3"
features = [
    "AddEventListenerOptions",
    "Blob",
    "Document",
    "DocumentFragment",
    "Element",
    "Event",
    "EventTarget",
    "File",
    "FileSystemCreateWritableOptions",
    "FileSystemFileHandle",
    "FileSystemHandle",
    "FileSystemWritableFileStream",
    "HtmlButtonElement",
    "HtmlElement",
    "HtmlInputElement",
    "HtmlOptionElement",
    "HtmlSelectElement",
    "HtmlTemplateElement",
    "Navigator",
    "Node",
    "ReadableStream",
    "ReadableStreamDefaultReader",
    "Serial",
    "SerialOptions",
    "SerialPort",
    "SerialPortInfo",
    "Window",
    "WritableStream",
]
