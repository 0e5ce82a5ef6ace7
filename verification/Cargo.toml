[package]
name = "cloudflare_proxy"
version = "0.1.0"
edition = "2021"
publish = false

[dependencies]
regex = "=1.13.1"
serde = { version = "=1.0.229", features = ["derive"] }
dotenv = "=0.15.0"
diesel = { version = "=2.3.14", features = ["postgres"] }
rocket = { version = "=0.5.2", features = ["json"] }
rocket_dyn_templates = { version = "=0.2.0", features = ["tera"] }
cloudflare = { version = "=0.14.0", features = ["blocking"] }
