[package]
name = "simics_fuzz"
version = "0.1.0"
edition = "2021"
publish = false

[dependencies]
anyhow = "=1.0.104"
crossterm = "=0.27.0"
goblin = "=0.7.1"
ipc-channel = "=0.16.1"
libafl = { version = "=0.11.2", default-features = false, features = ["std"] }
libafl_bolts = { version = "=0.11.2", default-features = false, features = ["std"] }
log = { version = "=0.4.34", features = ["max_level_info"] }
log4rs = { version = "=1.4.0", default-features = false, features = ["console_appender"] }
pdb = "=0.8.0"
reqwest = { version = "=0.11.27", default-features = false, features = ["blocking"] }
serde = { version = "=1.0.229", features = ["derive"] }
tempfile = "=3.27.0"
tracing = "=0.1.44"
tracing-subscriber = "=0.3.23"
