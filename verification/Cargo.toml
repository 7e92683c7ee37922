[package]
name = "blog_auth"
version = "0.1.0"
edition = "2021"
publish = false

[dependencies]
jsonwebtoken = "=9.3.1"
serde = { version = "1", features = ["derive"] }
serde_json = { version = "=1.0.154", features = ["preserve_order"] }
uuid = { version = "=1.29.0", features = ["v4", "serde"] }
time = { version = "=0.3.55", features = ["serde", "formatting", "parsing"] }
argon2 = { version = "=0.5.3", features = ["std"] }
onig = { version = "=6.5.3", default-features = false }
actix-web = "4"
actix-cors = "0.7"
diesel = { version = "2", features = ["postgres", "r2d2", "uuid", "time"] }
r2d2 = "0.8"
dotenv = "0.15"
config = { version = "0.15", default-features = false, features = ["yaml"] }
tracing = "0.1"
tracing-log = "0.2"
tracing-subscriber = { version = "0.3", features = ["env-filter", "fmt"] }
log = "0.4"
once_cell = "1"
yew = { version = "0.21", features = ["csr"] }
yew-router = "0.18"
yew-hooks = "0.3"
reqwasm = "0.5"
wasm-bindgen = "0.2"
wasm-bindgen-futures = "0.4"
wasm-logger = "0.2"
web-sys = { version = "0.3", features = ["HtmlInputElement"] }
