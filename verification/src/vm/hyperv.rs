//! The Windows hypervisor platform as a backend.

use crate::vm::config::{ConfigError, VmConfig};
use crate::vm::jailer::MIB;
use vstd::prelude::*;

verus! {

/// The platform that the host runs.
#[derive(Debug, Clone, Copy, PartialEq, Eq, Structural)]
pub enum HostPlatform {
    Windows,
    Other,
}

/// The backend for the Windows hypervisor platform.
#[derive(Debug, Clone, Copy, PartialEq, Eq, Structural)]
pub struct HypervHypervisor;

/// Why the backend cannot start a VM.
#[derive(Debug, Clone, Copy, PartialEq, Eq, Structural)]
pub enum HypervError {
    /// The host does not run Windows.
    Unavailable,
    /// The configuration breaks a rule.
    ConfigInvalid(ConfigError),
    /// The kernel image is not there.
    KernelMissing,
    /// The root filesystem is not there.
    RootfsMissing,
}

/// How a partition is set up for a VM.
#[derive(Debug, Clone, Copy, PartialEq, Eq, Structural)]
pub struct PartitionPlan {
    pub vcpu_count: u32,
    pub memory_bytes: u64,
    /// The root filesystem is attached read-only.
    pub disk_read_only: bool,
    /// Whether a network device is attached: never, whatever the
    /// configuration asks for.
    pub attach_network: bool,
}

/// A VM that the backend runs.
#[derive(Debug, Clone, PartialEq, Eq)]
pub struct HypervInstance {
    pub id: String,
    pub pid: u32,
    /// How long the spawn took, in milliseconds.
    pub spawn_time_ms: u64,
}

/// What the backend does with a configuration, given the host and whether
/// the kernel and the root filesystem are there. A configuration that
/// breaks a rule is refused, so no partition is planned for a VM that asks
/// for networking.
pub open spec fn partition_plan(
    config: VmConfig,
    host: HostPlatform,
    kernel_exists: bool,
    rootfs_exists: bool,
) -> Result<PartitionPlan, HypervError> {
    if host != HostPlatform::Windows {
        Err(HypervError::Unavailable)
    } else if config.violation() is Some {
        Err(HypervError::ConfigInvalid(config.violation()->0))
    } else if !kernel_exists {
        Err(HypervError::KernelMissing)
    } else if !rootfs_exists {
        Err(HypervError::RootfsMissing)
    } else {
        Ok(
            PartitionPlan {
                vcpu_count: config.vcpu_count as u32,
                memory_bytes: (config.memory_mb * MIB) as u64,
                disk_read_only: true,
                attach_network: false,
            },
        )
    }
}

impl HypervHypervisor {
    /// The name of the backend.
    pub fn name(&self) -> (out: &'static str)
        ensures
            out@ == "hyperv"@,
    {
        "hyperv"
    }

    /// Plans the partition for a VM. The backend works on Windows only, and
    /// only for a configuration that breaks no rule. No partition gets a
    /// network device.
    pub fn spawn(
        &self,
        config: &VmConfig,
        host: HostPlatform,
        kernel_exists: bool,
        rootfs_exists: bool,
    ) -> (out: Result<PartitionPlan, HypervError>)
        ensures
            out == partition_plan(*config, host, kernel_exists, rootfs_exists),
    {
        assert(config.memory_mb * MIB <= 0xffff_ffff * 1_048_576) by (nonlinear_arith)
            requires
                0 <= config.memory_mb <= 0xffff_ffff,
                MIB == 1_048_576,
        ;
        match host {
            HostPlatform::Windows => {},
            HostPlatform::Other => {
                return Err(HypervError::Unavailable);
            },
        }
        match config.check() {
            Ok(()) => {},
            Err(e) => {
                return Err(HypervError::ConfigInvalid(e));
            },
        }
        if !kernel_exists {
            return Err(HypervError::KernelMissing);
        }
        if !rootfs_exists {
            return Err(HypervError::RootfsMissing);
        }
        Ok(
            PartitionPlan {
                vcpu_count: config.vcpu_count as u32,
                memory_bytes: (config.memory_mb as u64) * MIB,
                disk_read_only: true,
                attach_network: false,
            },
        )
    }
}

impl HypervInstance {
    /// The id of the VM.
    pub fn id(&self) -> (out: &str)
        ensures
            out@ == self.id@,
    {
        self.id.as_str()
    }

    /// The process id of the VM.
    pub fn pid(&self) -> (out: u32)
        ensures
            out == self.pid,
    {
        self.pid
    }

    /// The socket of the VM: this backend has none.
    pub fn socket_path(&self) -> (out: &'static str)
        ensures
            out@ == ""@,
    {
        ""
    }

    /// How long the spawn took, in milliseconds.
    pub fn spawn_time_ms(&self) -> (out: u64)
        ensures
            out == self.spawn_time_ms,
    {
        self.spawn_time_ms
    }
}

} // verus!
