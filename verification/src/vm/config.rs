//! Parameters of one micro-VM and the rules that every accepted
//! configuration meets.

use crate::json::{
    json_render_pretty, push_member, record_model, to_pretty_json_text, JsonModel, JsonValue,
};
use crate::text::concat;
use crate::vm::seccomp::SeccompFilter;
use vstd::prelude::*;

verus! {

/// The least memory, in MiB, that a VM may be given.
pub const MIN_MEMORY_MB: u32 = 128;

/// The context id under which the guest reaches the host's side channel.
pub const GUEST_CID: u64 = 3;

/// Parameters of one micro-VM.
#[derive(Debug, Clone, PartialEq, Eq)]
pub struct VmConfig {
    /// Stable identifier of the VM.
    pub vm_id: String,
    /// Number of virtual CPUs.
    pub vcpu_count: u8,
    /// Memory in MiB.
    pub memory_mb: u32,
    /// Kernel image on the host.
    pub kernel_path: String,
    /// Root filesystem image on the host.
    pub rootfs_path: String,
    /// Whether the guest gets a network device. Must be off.
    pub enable_networking: bool,
    /// Whether the root filesystem is attached read-only. Must be on.
    pub rootfs_readonly: bool,
    /// The syscall filter; the `Basic` preset is installed where none is set.
    pub seccomp_filter: Option<SeccompFilter>,
    /// Detached signature of the root filesystem.
    pub signature_path: Option<String>,
    /// Public key that the signature is checked against.
    pub public_key_path: Option<String>,
    /// Hash tree over the blocks of the root filesystem.
    pub hash_tree_path: Option<String>,
    /// Host-side socket of the side channel.
    pub vsock_path: Option<String>,
}

/// Why a configuration is refused.
#[derive(Clone, Copy, Debug, PartialEq, Eq, Structural)]
pub enum ConfigError {
    NoVcpu,
    LowMemory,
    NetworkingEnabled,
    WritableRootfs,
    MissingKernelPath,
    MissingRootfsPath,
}

impl ConfigError {
    /// The text that describes the refusal.
    pub open spec fn message_text(self) -> Seq<char> {
        match self {
            ConfigError::NoVcpu => "vCPU count must be > 0"@,
            ConfigError::LowMemory => "Memory must be at least 128 MB"@,
            ConfigError::NetworkingEnabled => "Networking MUST be disabled for security. enable_networking must be false."@,
            ConfigError::WritableRootfs => "Root filesystem MUST be read-only. rootfs_readonly must be true."@,
            ConfigError::MissingKernelPath => "Kernel image path is missing"@,
            ConfigError::MissingRootfsPath => "Root filesystem path is missing"@,
        }
    }

    /// The text that describes the refusal.
    pub fn message(&self) -> (out: String)
        ensures
            out@ == self.message_text(),
    {
        match self {
            ConfigError::NoVcpu => "vCPU count must be > 0".to_owned(),
            ConfigError::LowMemory => "Memory must be at least 128 MB".to_owned(),
            ConfigError::NetworkingEnabled => "Networking MUST be disabled for security. enable_networking must be false.".to_owned(),
            ConfigError::WritableRootfs => "Root filesystem MUST be read-only. rootfs_readonly must be true.".to_owned(),
            ConfigError::MissingKernelPath => "Kernel image path is missing".to_owned(),
            ConfigError::MissingRootfsPath => "Root filesystem path is missing".to_owned(),
        }
    }
}

impl Default for VmConfig {
    fn default() -> (out: VmConfig)
        ensures
            out.vm_id@ == "default"@,
            out.has_default_resources(),
            out.vsock_path is None,
    {
        VmConfig {
            vm_id: "default".to_owned(),
            vcpu_count: 1,
            memory_mb: 512,
            kernel_path: "/path/to/vmlinux.bin".to_owned(),
            rootfs_path: "/path/to/rootfs.ext4".to_owned(),
            enable_networking: false,
            rootfs_readonly: true,
            seccomp_filter: None,
            signature_path: None,
            public_key_path: None,
            hash_tree_path: None,
            vsock_path: None,
        }
    }
}

/// The side-channel socket of the VM `vm_id`.
pub open spec fn vsock_path_of(vm_id: Seq<char>) -> Seq<char> {
    "/tmp/ironclaw/vsock/"@ + vm_id + ".sock"@
}

/// Derives the side-channel socket of a VM from its identifier.
pub fn derived_vsock_path(vm_id: &str) -> (out: String)
    ensures
        out@ == vsock_path_of(vm_id@),
{
    let head = concat("/tmp/ironclaw/vsock/", vm_id);
    concat(head.as_str(), ".sock")
}

impl VmConfig {
    /// Everything but the identifier and the socket has its default.
    pub open spec fn has_default_resources(self) -> bool {
        &&& self.vcpu_count == 1
        &&& self.memory_mb == 512
        &&& self.kernel_path@ == "/path/to/vmlinux.bin"@
        &&& self.rootfs_path@ == "/path/to/rootfs.ext4"@
        &&& !self.enable_networking
        &&& self.rootfs_readonly
        &&& self.seccomp_filter is None
        &&& self.signature_path is None
        &&& self.public_key_path is None
        &&& self.hash_tree_path is None
    }

    /// The first rule that the configuration breaks, if any. The rules are
    /// tried in a fixed order.
    pub open spec fn violation(self) -> Option<ConfigError> {
        if self.vcpu_count == 0 {
            Some(ConfigError::NoVcpu)
        } else if self.memory_mb < MIN_MEMORY_MB {
            Some(ConfigError::LowMemory)
        } else if self.enable_networking {
            Some(ConfigError::NetworkingEnabled)
        } else if !self.rootfs_readonly {
            Some(ConfigError::WritableRootfs)
        } else if self.kernel_path@.len() == 0 {
            Some(ConfigError::MissingKernelPath)
        } else if self.rootfs_path@.len() == 0 {
            Some(ConfigError::MissingRootfsPath)
        } else {
            None
        }
    }

    /// The configuration breaks no rule.
    pub open spec fn accepted(self) -> bool {
        self.violation() is None
    }

    /// A configuration for the VM `vm_id` with default resources and the
    /// side-channel socket derived from the identifier.
    pub fn new(vm_id: String) -> (out: VmConfig)
        ensures
            out.vm_id@ == vm_id@,
            out.has_default_resources(),
            out.vsock_path matches Some(path) && path@ == vsock_path_of(vm_id@),
            out.accepted(),
    {
        let path = derived_vsock_path(vm_id.as_str());
        proof {
            reveal_strlit("/path/to/vmlinux.bin");
            reveal_strlit("/path/to/rootfs.ext4");
        }
        VmConfig {
            vm_id,
            vcpu_count: 1,
            memory_mb: 512,
            kernel_path: "/path/to/vmlinux.bin".to_owned(),
            rootfs_path: "/path/to/rootfs.ext4".to_owned(),
            enable_networking: false,
            rootfs_readonly: true,
            seccomp_filter: None,
            signature_path: None,
            public_key_path: None,
            hash_tree_path: None,
            vsock_path: Some(path),
        }
    }

    /// Finds the first rule that the configuration breaks.
    pub fn check(&self) -> (out: Result<(), ConfigError>)
        ensures
            match out {
                Ok(()) => self.violation() is None,
                Err(e) => self.violation() == Some(e),
            },
    {
        if self.vcpu_count == 0 {
            Err(ConfigError::NoVcpu)
        } else if self.memory_mb < MIN_MEMORY_MB {
            Err(ConfigError::LowMemory)
        } else if self.enable_networking {
            Err(ConfigError::NetworkingEnabled)
        } else if !self.rootfs_readonly {
            Err(ConfigError::WritableRootfs)
        } else if self.kernel_path.as_str().is_empty() {
            Err(ConfigError::MissingKernelPath)
        } else if self.rootfs_path.as_str().is_empty() {
            Err(ConfigError::MissingRootfsPath)
        } else {
            Ok(())
        }
    }

    /// Accepts the configuration, or says which rule it breaks. An accepted
    /// configuration has networking off and a read-only root filesystem.
    pub fn validate(&self) -> (out: Result<(), String>)
        ensures
            match out {
                Ok(()) => self.violation() is None,
                Err(msg) => self.violation() matches Some(e) && msg@ == e.message_text(),
            },
            out is Ok ==> !self.enable_networking && self.rootfs_readonly,
            out is Ok ==> self.vcpu_count >= 1 && self.memory_mb >= MIN_MEMORY_MB,
    {
        match self.check() {
            Ok(()) => Ok(()),
            Err(e) => Err(e.message()),
        }
    }

    /// As `validate`, with the refusal put behind a fixed prefix.
    pub fn validate_anyhow(&self) -> (out: Result<(), String>)
        ensures
            match out {
                Ok(()) => self.violation() is None,
                Err(msg) => self.violation() matches Some(e) && msg@
                    == "Configuration validation failed: "@ + e.message_text(),
            },
    {
        match self.check() {
            Ok(()) => Ok(()),
            Err(e) => {
                let text = e.message();
                Err(concat("Configuration validation failed: ", text.as_str()))
            },
        }
    }

    /// The boot source of the hypervisor's configuration document.
    pub open spec fn boot_source_document(self) -> JsonModel {
        JsonModel::Record(seq![("kernel_image_path"@, JsonModel::Text(self.kernel_path@))])
    }

    /// The machine section of the hypervisor's configuration document.
    pub open spec fn machine_document(self) -> JsonModel {
        JsonModel::Record(
            seq![
                ("vcpu_count"@, JsonModel::Integer(self.vcpu_count as int)),
                ("mem_size_mib"@, JsonModel::Integer(self.memory_mb as int)),
                ("ht_enabled"@, JsonModel::Bool(false)),
            ],
        )
    }

    /// The one drive of the hypervisor's configuration document: the root
    /// filesystem, read-only.
    pub open spec fn drive_document(self) -> JsonModel {
        JsonModel::Record(
            seq![
                ("drive_id"@, JsonModel::Text("rootfs"@)),
                ("path_on_host"@, JsonModel::Text(self.rootfs_path@)),
                ("is_root_device"@, JsonModel::Bool(true)),
                ("is_read_only"@, JsonModel::Bool(true)),
            ],
        )
    }

    /// The side-channel device of the hypervisor's configuration document.
    pub open spec fn vsock_document(path: Seq<char>) -> JsonModel {
        JsonModel::Record(
            seq![
                ("guest_cid"@, JsonModel::Integer(GUEST_CID as int)),
                ("uds_path"@, JsonModel::Text(path)),
            ],
        )
    }

    /// The socket of the side-channel device: the one that is set, else the
    /// one derived from the identifier.
    pub open spec fn vsock_socket(self) -> Seq<char> {
        match self.vsock_path {
            Some(path) => path@,
            None => vsock_path_of(self.vm_id@),
        }
    }

    /// The hypervisor's configuration document: boot source, machine, the
    /// read-only root drive and the side-channel device. It never holds a
    /// network device.
    pub open spec fn firecracker_document(self) -> JsonModel {
        JsonModel::Record(
            seq![
                ("boot-source"@, self.boot_source_document()),
                ("machine-config"@, self.machine_document()),
                ("drives"@, JsonModel::List(seq![self.drive_document()])),
                ("vsock"@, Self::vsock_document(self.vsock_socket())),
            ],
        )
    }

    /// Builds the hypervisor's configuration document.
    pub fn firecracker_config(&self) -> (out: JsonValue)
        ensures
            out@ == self.firecracker_document(),
    {
        let mut boot: Vec<(String, JsonValue)> = Vec::new();
        push_member(&mut boot, "kernel_image_path", JsonValue::text(self.kernel_path.as_str()));
        let boot = JsonValue::object(boot);
        assert(boot@ == self.boot_source_document()) by {
            assert(boot@->Record_0 =~= self.boot_source_document()->Record_0);
        }

        let mut machine: Vec<(String, JsonValue)> = Vec::new();
        push_member(&mut machine, "vcpu_count", JsonValue::unsigned(self.vcpu_count as u64));
        push_member(&mut machine, "mem_size_mib", JsonValue::unsigned(self.memory_mb as u64));
        push_member(&mut machine, "ht_enabled", JsonValue::boolean(false));
        let machine = JsonValue::object(machine);
        assert(machine@ == self.machine_document()) by {
            assert(machine@->Record_0 =~= self.machine_document()->Record_0);
        }

        let mut drive: Vec<(String, JsonValue)> = Vec::new();
        push_member(&mut drive, "drive_id", JsonValue::text("rootfs"));
        push_member(&mut drive, "path_on_host", JsonValue::text(self.rootfs_path.as_str()));
        push_member(&mut drive, "is_root_device", JsonValue::boolean(true));
        push_member(&mut drive, "is_read_only", JsonValue::boolean(true));
        let drive = JsonValue::object(drive);
        assert(drive@ == self.drive_document()) by {
            assert(drive@->Record_0 =~= self.drive_document()->Record_0);
        }
        let mut drives: Vec<JsonValue> = Vec::new();
        drives.push(drive);
        let drives = JsonValue::array(drives);
        assert(drives@ == JsonModel::List(seq![self.drive_document()])) by {
            assert(drives@->List_0 =~= seq![self.drive_document()]);
        }

        let mut top: Vec<(String, JsonValue)> = Vec::new();
        push_member(&mut top, "boot-source", boot);
        push_member(&mut top, "machine-config", machine);
        push_member(&mut top, "drives", drives);
        let socket = match &self.vsock_path {
            Some(path) => path.clone(),
            None => derived_vsock_path(self.vm_id.as_str()),
        };
        let mut vsock: Vec<(String, JsonValue)> = Vec::new();
        push_member(&mut vsock, "guest_cid", JsonValue::unsigned(GUEST_CID));
        push_member(&mut vsock, "uds_path", JsonValue::text(socket.as_str()));
        let vsock = JsonValue::object(vsock);
        assert(vsock@ == Self::vsock_document(self.vsock_socket())) by {
            assert(vsock@->Record_0 =~= Self::vsock_document(self.vsock_socket())->Record_0);
        }
        push_member(&mut top, "vsock", vsock);
        let out = JsonValue::object(top);
        assert(out@->Record_0 =~= self.firecracker_document()->Record_0);
        out
    }

    /// The hypervisor's configuration document as indented JSON text.
    pub fn to_firecracker_json(&self) -> (out: String)
        ensures
            out@ == json_render_pretty(self.firecracker_document()),
    {
        let document = self.firecracker_config();
        to_pretty_json_text(&document)
    }
}

} // verus!
