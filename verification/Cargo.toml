[package]
name = "stepper_control"
version = "0.1.0"
edition = "2021"
publish = false

[dependencies]
embassy-stm32 = { version = "=0.1.0", features = ["defmt", "stm32l476rg", "time-driver-tim15", "exti", "unstable-pac"] }
embassy-sync = { version = "=0.5.0", features = ["defmt"] }
embassy-executor = { version = "=0.5.1", features = ["arch-std", "executor-thread", "defmt", "integrated-timers"] }
embassy-time = { version = "=0.3.2", features = ["defmt"] }
defmt = "=0.3.101"
defmt-rtt = "=0.4.2"
panic-probe = { version = "=0.3.2", features = ["print-defmt"] }
