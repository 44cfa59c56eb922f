[package]
name = "kp"
version = "0.1.0"
edition = "2021"
publish = false

[dependencies]
clipboard = "0.5"
ctrlc = "3"
docopt = "1"
env_logger = "*"
kdbx4 = "*"
libc = "0.2"
log = "0.4"
once_cell = "1"
security-framework = "*"
serde = "1"
serde_derive = "1"
skim = "0.9"
