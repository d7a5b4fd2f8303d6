//! The jail around the hypervisor: an unprivileged identity, resource
//! limits and a throwaway chroot.

use crate::text::concat;
use crate::vm::config::VmConfig;
use vstd::prelude::*;

verus! {

/// Bytes in one MiB.
pub const MIB: u64 = 1_048_576;

/// The hypervisor executable that a VM runs unless told otherwise.
pub const DEFAULT_EXEC_FILE: &'static str = "/usr/local/bin/firecracker-v1.14.1";

/// The directory under which the chroots are made.
pub const DEFAULT_CHROOT_BASE: &'static str = "/srv/jailer";

/// The cgroup under which the per-VM cgroups are made.
pub const DEFAULT_CGROUP_PARENT: &'static str = "ironclaw";

/// The numeric limits of a VM's cgroup.
#[derive(Debug, Clone, Copy, PartialEq, Eq, Structural)]
pub struct CgroupLimits {
    pub cpu_shares: u64,
    pub memory_bytes: u64,
    pub pids_max: u64,
    pub blkio_weight: u16,
}

/// The limits for a VM with the given CPUs and memory: 1024 shares a CPU,
/// the memory in bytes, and fixed bounds on processes and block I/O.
pub open spec fn limits_for(cpu_count: u8, memory_mb: u32) -> CgroupLimits {
    CgroupLimits {
        cpu_shares: (1024 * cpu_count) as u64,
        memory_bytes: (memory_mb * MIB) as u64,
        pids_max: 64,
        blkio_weight: 100,
    }
}

/// Computes the limits for a VM with the given CPUs and memory.
pub fn cgroup_limits(cpu_count: u8, memory_mb: u32) -> (out: CgroupLimits)
    ensures
        out == limits_for(cpu_count, memory_mb),
        out.memory_bytes == memory_mb * MIB,
{
    assert(memory_mb * MIB <= 0xffff_ffff * 1_048_576) by (nonlinear_arith)
        requires
            0 <= memory_mb <= 0xffff_ffff,
            MIB == 1_048_576,
    ;
    CgroupLimits {
        cpu_shares: 1024 * (cpu_count as u64),
        memory_bytes: (memory_mb as u64) * MIB,
        pids_max: 64,
        blkio_weight: 100,
    }
}

/// How the hypervisor of one VM is jailed.
#[derive(Debug, Clone, PartialEq, Eq)]
pub struct JailerConfig {
    /// The id of the VM that the jail belongs to.
    pub jailer_id: String,
    /// The hypervisor executable on the host.
    pub exec_file: String,
    /// The user that the hypervisor runs as. Never the superuser.
    pub uid: u32,
    /// The group that the hypervisor runs as. Never the superuser's.
    pub gid: u32,
    /// CPUs of the VM.
    pub cpu_count: u8,
    /// Memory of the VM in MiB.
    pub memory_limit_mb: u32,
    /// The cgroup under which the VM's cgroup is made.
    pub cgroup_parent: String,
    /// The limits of the VM's cgroup.
    pub limits: CgroupLimits,
    /// The NUMA node that the VM is pinned to.
    pub numa_node: Option<u32>,
    /// The directory under which the chroot is made.
    pub chroot_base: String,
}

/// Why a jail is refused.
#[derive(Debug, Clone, Copy, PartialEq, Eq, Structural)]
pub enum JailerError {
    /// The hypervisor would run as the superuser.
    RootUser,
    /// The hypervisor would run in the superuser's group.
    RootGroup,
    /// No hypervisor executable is named.
    MissingExecFile,
    /// The memory limit of the cgroup is not the memory of the VM.
    MemoryLimitMismatch,
}

/// The chroot of the VM `id` under `base`.
pub open spec fn chroot_dir_of(base: Seq<char>, id: Seq<char>) -> Seq<char> {
    base + "/"@ + id + "/root"@
}

impl Default for JailerConfig {
    fn default() -> (out: JailerConfig)
        ensures
            out.jailer_id@ == "default"@,
            out.has_defaults(),
    {
        JailerConfig {
            jailer_id: "default".to_owned(),
            exec_file: DEFAULT_EXEC_FILE.to_owned(),
            uid: 1000,
            gid: 1000,
            cpu_count: 1,
            memory_limit_mb: 256,
            cgroup_parent: DEFAULT_CGROUP_PARENT.to_owned(),
            limits: cgroup_limits(1, 256),
            numa_node: None,
            chroot_base: DEFAULT_CHROOT_BASE.to_owned(),
        }
    }
}

impl JailerConfig {
    /// Everything but the id and the resources has its default.
    pub open spec fn has_default_identity(self) -> bool {
        &&& self.exec_file@ == DEFAULT_EXEC_FILE@
        &&& self.uid == 1000
        &&& self.gid == 1000
        &&& self.cgroup_parent@ == DEFAULT_CGROUP_PARENT@
        &&& self.numa_node is None
        &&& self.chroot_base@ == DEFAULT_CHROOT_BASE@
    }

    /// Everything but the id has its default.
    pub open spec fn has_defaults(self) -> bool {
        &&& self.has_default_identity()
        &&& self.cpu_count == 1
        &&& self.memory_limit_mb == 256
        &&& self.limits == limits_for(1, 256)
    }

    /// The first rule that the jail breaks, if any.
    pub open spec fn violation(self) -> Option<JailerError> {
        if self.uid == 0 {
            Some(JailerError::RootUser)
        } else if self.gid == 0 {
            Some(JailerError::RootGroup)
        } else if self.exec_file@.len() == 0 {
            Some(JailerError::MissingExecFile)
        } else if self.limits.memory_bytes != self.memory_limit_mb * MIB {
            Some(JailerError::MemoryLimitMismatch)
        } else {
            None
        }
    }

    /// The jail of the VM `jailer_id` with defaults.
    pub fn new(jailer_id: String) -> (out: JailerConfig)
        ensures
            out.jailer_id@ == jailer_id@,
            out.has_defaults(),
    {
        JailerConfig {
            jailer_id,
            exec_file: DEFAULT_EXEC_FILE.to_owned(),
            uid: 1000,
            gid: 1000,
            cpu_count: 1,
            memory_limit_mb: 256,
            cgroup_parent: DEFAULT_CGROUP_PARENT.to_owned(),
            limits: cgroup_limits(1, 256),
            numa_node: None,
            chroot_base: DEFAULT_CHROOT_BASE.to_owned(),
        }
    }

    /// The jail for a VM: the VM's id, CPUs and memory, with a cgroup whose
    /// memory limit is the VM's memory.
    pub fn for_vm(vm: &VmConfig) -> (out: JailerConfig)
        ensures
            out.jailer_id@ == vm.vm_id@,
            out.has_default_identity(),
            out.cpu_count == vm.vcpu_count,
            out.memory_limit_mb == vm.memory_mb,
            out.limits == limits_for(vm.vcpu_count, vm.memory_mb),
            out.limits.memory_bytes == vm.memory_mb * MIB,
            out.uid != 0 && out.gid != 0,
    {
        JailerConfig {
            jailer_id: vm.vm_id.clone(),
            exec_file: DEFAULT_EXEC_FILE.to_owned(),
            uid: 1000,
            gid: 1000,
            cpu_count: vm.vcpu_count,
            memory_limit_mb: vm.memory_mb,
            cgroup_parent: DEFAULT_CGROUP_PARENT.to_owned(),
            limits: cgroup_limits(vm.vcpu_count, vm.memory_mb),
            numa_node: None,
            chroot_base: DEFAULT_CHROOT_BASE.to_owned(),
        }
    }

    /// Pins the VM to a NUMA node.
    pub fn with_numa_node(self, node: u32) -> (out: JailerConfig)
        ensures
            out == (JailerConfig { numa_node: Some(node), ..self }),
    {
        JailerConfig { numa_node: Some(node), ..self }
    }

    /// The chroot of the VM.
    pub fn chroot_dir(&self) -> (out: String)
        ensures
            out@ == chroot_dir_of(self.chroot_base@, self.jailer_id@),
    {
        let out = concat(self.chroot_base.as_str(), "/");
        let out = concat(out.as_str(), self.jailer_id.as_str());
        let out = concat(out.as_str(), "/root");
        assert(out@ =~= chroot_dir_of(self.chroot_base@, self.jailer_id@));
        out
    }

    /// Accepts the jail, or says which rule it breaks. An accepted jail
    /// never runs the hypervisor as the superuser, and limits its memory to
    /// the memory of the VM.
    pub fn validate(&self) -> (out: Result<(), JailerError>)
        ensures
            match out {
                Ok(()) => self.violation() is None,
                Err(e) => self.violation() == Some(e),
            },
            out is Ok ==> self.uid != 0 && self.gid != 0 && self.limits.memory_bytes
                == self.memory_limit_mb * MIB,
    {
        assert(self.memory_limit_mb * MIB <= 0xffff_ffff * 1_048_576) by (nonlinear_arith)
            requires
                0 <= self.memory_limit_mb <= 0xffff_ffff,
                MIB == 1_048_576,
        ;
        if self.uid == 0 {
            Err(JailerError::RootUser)
        } else if self.gid == 0 {
            Err(JailerError::RootGroup)
        } else if self.exec_file.as_str().is_empty() {
            Err(JailerError::MissingExecFile)
        } else if self.limits.memory_bytes != (self.memory_limit_mb as u64) * MIB {
            Err(JailerError::MemoryLimitMismatch)
        } else {
            Ok(())
        }
    }
}

/// The steps that the child takes between the fork and the start of the
/// hypervisor.
#[derive(Debug, Clone, Copy, PartialEq, Eq, Structural)]
pub enum JailStep {
    /// Create the chroot and its device entries.
    CreateChroot,
    /// Create the cgroup, write its limits and enter it.
    EnterCgroup,
    /// Enter new mount, process and network namespaces.
    EnterNamespaces,
    /// Make the chroot the root.
    PivotRoot,
    /// Drop the supplementary groups and take the unprivileged identity.
    DropPrivileges,
    /// Install the syscall filter.
    InstallSeccomp,
    /// Start the hypervisor.
    Exec,
}

/// The exit code with which the child reports the failure of the first
/// step; the later steps follow it one by one.
pub const JAIL_EXIT_BASE: u8 = 101;

impl JailStep {
    /// The position of the step in the order in which the child takes the
    /// steps.
    pub open spec fn index(self) -> int {
        match self {
            JailStep::CreateChroot => 0,
            JailStep::EnterCgroup => 1,
            JailStep::EnterNamespaces => 2,
            JailStep::PivotRoot => 3,
            JailStep::DropPrivileges => 4,
            JailStep::InstallSeccomp => 5,
            JailStep::Exec => 6,
        }
    }

    /// The exit code with which the child reports that the step failed.
    pub open spec fn exit_code_of(self) -> int {
        JAIL_EXIT_BASE + self.index()
    }

    /// The exit code with which the child reports that the step failed.
    pub fn exit_code(&self) -> (out: u8)
        ensures
            out == self.exit_code_of(),
    {
        match self {
            JailStep::CreateChroot => 101,
            JailStep::EnterCgroup => 102,
            JailStep::EnterNamespaces => 103,
            JailStep::PivotRoot => 104,
            JailStep::DropPrivileges => 105,
            JailStep::InstallSeccomp => 106,
            JailStep::Exec => 107,
        }
    }
}

/// The step that an exit code of the child reports as failed.
pub open spec fn failed_step(code: int) -> Option<JailStep> {
    if code == 101 {
        Some(JailStep::CreateChroot)
    } else if code == 102 {
        Some(JailStep::EnterCgroup)
    } else if code == 103 {
        Some(JailStep::EnterNamespaces)
    } else if code == 104 {
        Some(JailStep::PivotRoot)
    } else if code == 105 {
        Some(JailStep::DropPrivileges)
    } else if code == 106 {
        Some(JailStep::InstallSeccomp)
    } else if code == 107 {
        Some(JailStep::Exec)
    } else {
        None
    }
}

/// Reads from the child's exit code which step failed.
pub fn decode_exit_code(code: i32) -> (out: Option<JailStep>)
    ensures
        out == failed_step(code as int),
{
    if code == 101 {
        Some(JailStep::CreateChroot)
    } else if code == 102 {
        Some(JailStep::EnterCgroup)
    } else if code == 103 {
        Some(JailStep::EnterNamespaces)
    } else if code == 104 {
        Some(JailStep::PivotRoot)
    } else if code == 105 {
        Some(JailStep::DropPrivileges)
    } else if code == 106 {
        Some(JailStep::InstallSeccomp)
    } else if code == 107 {
        Some(JailStep::Exec)
    } else {
        None
    }
}

/// Each step has an exit code of its own, and the parent reads the step
/// back from it.
pub proof fn lemma_exit_codes_distinct(a: JailStep, b: JailStep)
    ensures
        failed_step(a.exit_code_of()) == Some(a),
        a != b ==> a.exit_code_of() != b.exit_code_of(),
        a.exit_code_of() != 0,
{
}

} // verus!
