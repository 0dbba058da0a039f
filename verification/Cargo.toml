[package]
name = "mugen_runner"
version = "0.1.0"
edition = "2021"
publish = false

[dependencies]
rand = "0.8"
serde = { version = "1", features = ["derive"] }
axum = "0.7"
tokio = { version = "1", features = ["macros", "rt-multi-thread", "net"] }
anyhow = "1"
log = "0.4"
env_logger = "0.10"
sysinfo = "0.29"
wait-timeout = "0.2"
winapi = { version = "0.3", features = ["processthreadsapi", "memoryapi", "tlhelp32", "handleapi", "errhandlingapi", "winnt", "ntdef", "minwindef"] }
