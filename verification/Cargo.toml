[package]
name = "sockprim"
version = "0.1.0"
edition = "2021"
publish = false

[dependencies]
winapi = { version = "0.3", features = ["handleapi", "in6addr", "inaddr", "minwindef", "ntdef", "processthreadsapi", "winbase", "winerror", "winsock2", "ws2def", "ws2ipdef", "ws2tcpip"] }
