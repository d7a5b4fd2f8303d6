//! Configuration, isolation and lifecycle of the micro-VMs.

pub mod agent;
pub mod builder;
pub mod config;
pub mod firecracker;
pub mod firewall;
pub mod hyperv;
pub mod jailer;
pub mod lifecycle;
pub mod rootfs;
pub mod seccomp;
pub mod signature;
pub mod verity;
