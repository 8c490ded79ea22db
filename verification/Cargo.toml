[package]
name = "senscale"
version = "0.1.0"
edition = "2021"
publish = false

[dependencies]
argh = "=0.1.19"
directories = "=6.0.0"
linked-hash-map = { version = "=0.5.6", features = ["serde_impl"] }
serde = { version = "=1.0.229", features = ["derive"] }
serde_yaml = "=0.9.34"
winapi = { version = "=0.3.9", features = ["winuser", "winbase", "processthreadsapi", "winnt", "handleapi", "winioctl", "ioapiset", "tlhelp32", "minwindef", "windef"] }
