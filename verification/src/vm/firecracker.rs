//! The hypervisor process of a VM.

use crate::vm::config::VmConfig;
use crate::vm::jailer::{limits_for, JailerConfig, MIB};
use vstd::prelude::*;

verus! {

/// A running hypervisor process.
#[derive(Debug)]
pub struct FirecrackerProcess {
    /// Process id of the hypervisor.
    pub pid: u32,
    /// Socket of the hypervisor's API.
    pub socket_path: String,
    /// Whether the hypervisor runs in a jail.
    pub is_sandboxed: bool,
    /// Configuration of the VM.
    pub config: VmConfig,
}

/// What to do about a hypervisor that was asked to shut down.
#[derive(Debug, Clone, Copy, PartialEq, Eq, Structural)]
pub enum StopAction {
    /// It has exited: nothing is left to do.
    Finished,
    /// It is still running: kill it.
    ForceKill,
}

/// The jail in which the hypervisor of a VM is started: the VM's id, CPUs
/// and memory, an unprivileged identity, and a cgroup whose memory limit
/// is the VM's memory.
pub fn start_firecracker(vm_config: &VmConfig) -> (out: JailerConfig)
    ensures
        out.jailer_id@ == vm_config.vm_id@,
        out.has_default_identity(),
        out.cpu_count == vm_config.vcpu_count,
        out.memory_limit_mb == vm_config.memory_mb,
        out.limits == limits_for(vm_config.vcpu_count, vm_config.memory_mb),
        out.limits.memory_bytes == vm_config.memory_mb * MIB,
        out.uid != 0 && out.gid != 0,
{
    JailerConfig::for_vm(vm_config)
}

/// Decides, after the hypervisor was asked to shut down, whether it has to
/// be killed.
pub fn stop_firecracker(still_running: bool) -> (out: StopAction)
    ensures
        out == if still_running {
            StopAction::ForceKill
        } else {
            StopAction::Finished
        },
{
    if still_running {
        StopAction::ForceKill
    } else {
        StopAction::Finished
    }
}

} // verus!
