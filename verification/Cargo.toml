[package]
name = "common"
version = "0.1.0"
edition = "2021"
publish = false

[dependencies]
anyhow = "=1.0.104"
async-trait = "=0.1.92"
bytemuck = { version = "=1.25.2", features = ["derive"] }
chrono = "=0.4.45"
clap = { version = "=4.6.7", features = ["derive"] }
crossbeam = "=0.8.5"
embedded-graphics = "=0.8.2"
enum-map = "=3.1.0"
evdev = { version = "=0.13.2", features = ["tokio"] }
fast_image_resize = "=6.1.0"
fluent-templates = "=0.15.1"
framebuffer = "=0.3.2"
image = { version = "=0.25.10", default-features = false, features = ["png", "jpeg"] }
itertools = "=0.15.0"
log = "=0.4.35"
nix = { version = "=0.31.3", features = ["ioctl"] }
rusqlite = { version = "=0.40.2", features = ["bundled", "chrono"] }
rusqlite_migration = "=2.6.0"
rusttype = "=0.9.3"
serde = { version = "=1.0.229", features = ["derive"] }
serde_json = "=1.0.154"
simple_logger = "=5.2.0"
strum = { version = "=0.28.0", features = ["derive"] }
sysfs_gpio = "=0.6.2"
tiny-skia = "=0.11.4"
tokio = { version = "=1.54.1", features = ["rt", "macros", "sync", "time", "signal"] }
type-map = "=0.5.1"
