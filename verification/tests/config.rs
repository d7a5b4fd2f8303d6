use ironclaw_orchestrator::json::parse_json;
use ironclaw_orchestrator::vm::config::{ConfigError, VmConfig};
use ironclaw_orchestrator::vm::seccomp::{filter_or_default, SeccompFilter, SeccompLevel};

#[test]
fn test_default_config() {
    let config = VmConfig::default();
    assert_eq!(config.vcpu_count, 1);
    assert_eq!(config.memory_mb, 512);
    assert!(!config.enable_networking);
    assert!(config.vsock_path.is_none());
}

#[test]
fn test_new_config() {
    let config = VmConfig::new("test-vm".to_string());
    assert_eq!(config.vm_id, "test-vm");
    assert!(!config.enable_networking);
    assert!(config.vsock_path.is_some());
    assert!(config.vsock_path.as_ref().unwrap().contains("test-vm"));
}

#[test]
fn test_config_validation() {
    let config = VmConfig::new("test-vm".to_string());
    assert!(config.validate().is_ok());
    assert!(config.validate_anyhow().is_ok());
}

#[test]
fn test_config_validation_fails_vcpu() {
    let mut config = VmConfig::new("test-vm".to_string());
    config.vcpu_count = 0;
    assert!(config.validate().is_err());
}

#[test]
fn test_config_validation_fails_memory() {
    let mut config = VmConfig::new("test-vm".to_string());
    config.memory_mb = 64;
    assert!(config.validate().is_err());
}

#[test]
fn test_config_validation_fails_networking_enabled() {
    let mut config = VmConfig::new("test-vm".to_string());
    config.enable_networking = true;
    let result = config.validate();
    assert!(result.is_err());
    assert!(result.unwrap_err().contains("MUST be disabled"));
}

#[test]
fn test_to_json() {
    let config = VmConfig::new("test-vm".to_string());
    let json = config.to_firecracker_json();
    assert!(json.contains("boot-source"));
    assert!(json.contains("machine-config"));
}

#[test]
fn test_vsock_path_generation() {
    let config = VmConfig::new("my-vm-123".to_string());
    assert_eq!(
        config.vsock_path,
        Some("/tmp/ironclaw/vsock/my-vm-123.sock".to_string())
    );
}

#[test]
fn test_networking_always_disabled() {
    let config = VmConfig::new("test-vm".to_string());
    assert!(!config.enable_networking);

    let mut config = config;
    config.enable_networking = true;
    assert!(config.validate().is_err());
}

#[test]
fn scenario_default_config_is_accepted_and_networking_is_refused() {
    let mut config = VmConfig::new("t1".to_string());
    assert_eq!(config.validate(), Ok(()));
    config.enable_networking = true;
    let message = config.validate().unwrap_err();
    assert!(message.contains("MUST be disabled"));
}

#[test]
fn accepted_config_has_networking_off_and_rootfs_read_only() {
    for networking in [false, true] {
        for readonly in [false, true] {
            let mut config = VmConfig::new("vm".to_string());
            config.enable_networking = networking;
            config.rootfs_readonly = readonly;
            let accepted = config.validate().is_ok();
            assert_eq!(accepted, !networking && readonly);
        }
    }
}

#[test]
fn each_rule_has_its_error() {
    let mut config = VmConfig::new("vm".to_string());
    config.vcpu_count = 0;
    assert_eq!(config.check(), Err(ConfigError::NoVcpu));
    assert_eq!(config.validate().unwrap_err(), "vCPU count must be > 0");

    let mut config = VmConfig::new("vm".to_string());
    config.memory_mb = 127;
    assert_eq!(config.check(), Err(ConfigError::LowMemory));
    assert_eq!(config.validate().unwrap_err(), "Memory must be at least 128 MB");
    config.memory_mb = 128;
    assert_eq!(config.check(), Ok(()));

    let mut config = VmConfig::new("vm".to_string());
    config.enable_networking = true;
    assert_eq!(config.check(), Err(ConfigError::NetworkingEnabled));

    let mut config = VmConfig::new("vm".to_string());
    config.rootfs_readonly = false;
    assert_eq!(config.check(), Err(ConfigError::WritableRootfs));

    let mut config = VmConfig::new("vm".to_string());
    config.kernel_path = String::new();
    assert_eq!(config.check(), Err(ConfigError::MissingKernelPath));

    let mut config = VmConfig::new("vm".to_string());
    config.rootfs_path = String::new();
    assert_eq!(config.check(), Err(ConfigError::MissingRootfsPath));
}

#[test]
fn rules_are_tried_in_order() {
    let mut config = VmConfig::new("vm".to_string());
    config.vcpu_count = 0;
    config.memory_mb = 1;
    config.enable_networking = true;
    assert_eq!(config.check(), Err(ConfigError::NoVcpu));
    config.vcpu_count = 2;
    assert_eq!(config.check(), Err(ConfigError::LowMemory));
    config.memory_mb = 256;
    assert_eq!(config.check(), Err(ConfigError::NetworkingEnabled));
}

#[test]
fn validate_anyhow_puts_the_refusal_behind_a_prefix() {
    let mut config = VmConfig::new("vm".to_string());
    config.memory_mb = 64;
    assert_eq!(
        config.validate_anyhow().unwrap_err(),
        "Configuration validation failed: Memory must be at least 128 MB"
    );
}

#[test]
fn firecracker_document_has_read_only_drive_and_no_network() {
    let mut config = VmConfig::new("vm-7".to_string());
    config.vcpu_count = 2;
    config.memory_mb = 1024;
    config.kernel_path = "/k/vmlinux".to_string();
    config.rootfs_path = "/r/rootfs.ext4".to_string();
    let text = config.to_firecracker_json();
    let expected = parse_json(
        r#"{
            "boot-source": {"kernel_image_path": "/k/vmlinux"},
            "machine-config": {"vcpu_count": 2, "mem_size_mib": 1024, "ht_enabled": false},
            "drives": [{"drive_id": "rootfs", "path_on_host": "/r/rootfs.ext4",
                        "is_root_device": true, "is_read_only": true}],
            "vsock": {"guest_cid": 3, "uds_path": "/tmp/ironclaw/vsock/vm-7.sock"}
        }"#,
    )
    .unwrap();
    assert_eq!(parse_json(&text).unwrap(), expected);
    assert_eq!(config.firecracker_config(), expected);
    assert!(!text.contains("network-interfaces"));
    assert!(text.starts_with("{\n  \"boot-source\": {\n    \"kernel_image_path\": \"/k/vmlinux\"\n  },"));
}

#[test]
fn firecracker_document_without_socket_derives_it() {
    let mut config = VmConfig::default();
    assert!(config.vsock_path.is_none());
    config.vm_id = "vm-9".to_string();
    let document = config.firecracker_config();
    let vsock = document.get("vsock").unwrap();
    assert_eq!(vsock.get("guest_cid").unwrap().as_u64(), Some(3));
    assert_eq!(
        vsock.get("uds_path").unwrap().as_text().unwrap(),
        "/tmp/ironclaw/vsock/vm-9.sock"
    );
    assert!(document.get("drives").is_some());
    assert!(document.get("network-interfaces").is_none());

    config.vsock_path = Some("/run/side.sock".to_string());
    let document = config.firecracker_config();
    assert_eq!(
        document.get("vsock").unwrap().get("uds_path").unwrap().as_text().unwrap(),
        "/run/side.sock"
    );
}

#[test]
fn firecracker_document_escapes_paths() {
    let mut config = VmConfig::new("vm".to_string());
    config.kernel_path = "/k/\"quoted\"".to_string();
    let text = config.to_firecracker_json();
    let document = parse_json(&text).unwrap();
    let boot = document.get("boot-source").unwrap();
    assert_eq!(
        boot.get("kernel_image_path").unwrap().as_text().unwrap(),
        "/k/\"quoted\""
    );
}

#[test]
fn missing_filter_defaults_to_basic() {
    assert_eq!(filter_or_default(None), SeccompFilter::new(SeccompLevel::Basic));
    let strict = SeccompFilter::new(SeccompLevel::Strict);
    assert_eq!(filter_or_default(Some(strict)), strict);
    assert!(strict.is_enforcing());
    assert!(!SeccompFilter::new(SeccompLevel::Disabled).is_enforcing());
}
