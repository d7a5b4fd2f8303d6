use ironclaw_orchestrator::vm::rootfs::{
    IntegrityReport, RootfsConfig, RootfsConfigError, RootfsProbe, RootfsSetupReport,
    SignatureReport,
};
use ironclaw_orchestrator::vm::signature::{sign_rootfs_at, signature_file_text, KeyPair};
use ironclaw_orchestrator::vm::verity::merkle_root_hex;

const IMAGE: &[u8] = b"rootfs image bytes";

fn signature_text() -> String {
    let key_pair = KeyPair {
        public_key: "placeholder-public-key".to_string(),
        secret_key: "placeholder-secret-key".to_string(),
        key_id: "release-key-7".to_string(),
    };
    signature_file_text(&sign_rootfs_at(IMAGE, &key_pair, "detached-signature", 1_700_000_000))
}

fn nothing_found() -> RootfsProbe<'static> {
    RootfsProbe {
        image: None,
        hash_tree_root: None,
        signature_file: None,
        public_key_exists: false,
        signature_valid: false,
    }
}

fn all_good<'a>(root: &'a str, signature: &'a str) -> RootfsProbe<'a> {
    RootfsProbe {
        image: Some(IMAGE),
        hash_tree_root: Some(root),
        signature_file: Some(signature),
        public_key_exists: true,
        signature_valid: true,
    }
}

fn full_config() -> RootfsConfig {
    RootfsConfig {
        rootfs_path: "/images/test-rootfs.ext4".to_string(),
        hash_tree_path: Some("/images/hash.tree".to_string()),
        signature_path: Some("/images/rootfs.sig".to_string()),
        pub_key_path: Some("/images/pubkey.pem".to_string()),
        enable_integrity: true,
        enable_signature: true,
        ..Default::default()
    }
}

#[test]
fn test_rootfs_config_default() {
    let config = RootfsConfig::default();
    assert_eq!(config.rootfs_path, "/opt/ironclaw/rootfs.ext4");
    assert!(config.enable_integrity);
    assert!(config.enable_signature);
}

#[test]
fn test_rootfs_config_new() {
    let config = RootfsConfig::new("/custom/rootfs.ext4".to_string());
    assert_eq!(config.rootfs_path, "/custom/rootfs.ext4");
    assert!(config.enable_integrity);
}

#[test]
fn test_rootfs_validate_missing_file() {
    let config = RootfsConfig::new("/nonexistent/rootfs.ext4".to_string());
    let exists = std::path::Path::new(&config.rootfs_path).exists();
    assert!(config.validate(exists).is_err());
}

#[test]
fn test_rootfs_validate_integrity_missing_hash() {
    let config = RootfsConfig {
        rootfs_path: "/images/test-rootfs.ext4".to_string(),
        enable_integrity: true,
        hash_tree_path: None,
        ..Default::default()
    };

    assert!(config.validate(true).is_err());
}

#[test]
fn test_rootfs_validate_signature_missing_key() {
    let config = RootfsConfig {
        rootfs_path: "/images/test-rootfs.ext4".to_string(),
        enable_signature: true,
        signature_path: Some("/fake/signature.sig".to_string()),
        pub_key_path: None,
        ..Default::default()
    };

    assert!(config.validate(true).is_err());
}

#[test]
fn test_rootfs_validate_success() {
    assert!(full_config().validate(true).is_ok());
}

#[test]
fn test_verify_integrity_disabled() {
    let config = RootfsConfig {
        rootfs_path: "/images/test-rootfs.ext4".to_string(),
        enable_integrity: false,
        ..Default::default()
    };

    let report = config.verify_integrity(Some(IMAGE), Some("00")).unwrap();
    assert!(!report.verified);
    assert!(!report.tampered);
    assert!(report.message.contains("disabled"));
}

#[test]
fn test_verify_integrity_missing_hash() {
    let config = RootfsConfig {
        rootfs_path: "/images/test-rootfs.ext4".to_string(),
        enable_integrity: true,
        hash_tree_path: Some("/nonexistent/hash.tree".to_string()),
        ..Default::default()
    };

    let report = config.verify_integrity(None, None).unwrap();
    assert!(!report.verified);
    assert!(!report.tampered);
    assert!(report.message.contains("not found"));
}

#[test]
fn test_verify_signature_disabled() {
    let config = RootfsConfig {
        rootfs_path: "/images/test-rootfs.ext4".to_string(),
        enable_signature: false,
        ..Default::default()
    };

    let report = config.verify_signature(Some(IMAGE), Some("{}"), true, true).unwrap();
    assert!(!report.verified);
    assert!(report.message.contains("disabled"));
}

#[test]
fn test_verify_signature_missing_files() {
    let config = RootfsConfig {
        rootfs_path: "/images/test-rootfs.ext4".to_string(),
        enable_signature: true,
        signature_path: Some("/nonexistent/sig".to_string()),
        pub_key_path: Some("/nonexistent/key".to_string()),
        ..Default::default()
    };

    let report = config.verify_signature(None, None, false, false).unwrap();
    assert!(!report.verified);
    assert!(report.message.contains("not found"));
}

#[test]
fn test_config_variations() {
    let config1 = RootfsConfig {
        rootfs_path: "/images/test-rootfs.ext4".to_string(),
        enable_integrity: false,
        enable_signature: false,
        ..Default::default()
    };
    assert!(config1.validate(true).is_ok());

    let config2 = RootfsConfig {
        rootfs_path: "/images/test-rootfs.ext4".to_string(),
        mount_point: "/custom/mount".to_string(),
        enable_integrity: false,
        enable_signature: false,
        ..Default::default()
    };
    assert!(config2.validate(true).is_ok());
}

#[test]
fn validation_errors_in_order() {
    let config = RootfsConfig::new("/images/r.ext4".to_string());
    assert_eq!(config.check(false), Err(RootfsConfigError::MissingRootfs));
    assert_eq!(config.validate(false).unwrap_err(), "Rootfs path does not exist: /images/r.ext4");
    assert_eq!(config.check(true), Err(RootfsConfigError::NoHashTreePath));
    assert_eq!(
        config.validate(true).unwrap_err(),
        "Integrity checking enabled but no hash tree path provided"
    );
    let config = RootfsConfig { hash_tree_path: Some("h".to_string()), ..config };
    assert_eq!(config.check(true), Err(RootfsConfigError::NoSignaturePath));
    assert_eq!(
        config.validate(true).unwrap_err(),
        "Signature verification enabled but no signature path provided"
    );
    let config = RootfsConfig { signature_path: Some("s".to_string()), ..config };
    assert_eq!(config.check(true), Err(RootfsConfigError::NoPublicKeyPath));
    assert_eq!(
        config.validate(true).unwrap_err(),
        "Signature verification enabled but no public key path provided"
    );
    let config = RootfsConfig { pub_key_path: Some("k".to_string()), ..config };
    assert_eq!(config.check(true), Ok(()));
}

#[test]
fn integrity_reports() {
    let config = full_config();
    let root = merkle_root_hex(IMAGE);
    assert_eq!(
        config.verify_integrity(Some(IMAGE), Some(&root)),
        Ok(IntegrityReport {
            verified: true,
            tampered: false,
            message: "Rootfs integrity verified".to_string()
        })
    );
    let padded = format!("  {}\n", root);
    assert!(config.verify_integrity(Some(IMAGE), Some(&padded)).unwrap().verified);
    assert_eq!(
        config.verify_integrity(Some(b"rootfs image bytez"), Some(&root)),
        Ok(IntegrityReport {
            verified: false,
            tampered: true,
            message: "Hash tree root does not match the image".to_string()
        })
    );
    let report = config.verify_integrity(Some(IMAGE), Some("")).unwrap();
    assert!(report.tampered && !report.verified);
    assert_eq!(
        config.verify_integrity(Some(IMAGE), None).unwrap().message,
        "Hash tree not found: /images/hash.tree"
    );
    assert_eq!(
        config.verify_integrity(None, Some(&root)),
        Ok(IntegrityReport {
            verified: false,
            tampered: false,
            message: "Rootfs image not found: /images/test-rootfs.ext4".to_string()
        })
    );
    let no_path = RootfsConfig { hash_tree_path: None, ..full_config() };
    assert_eq!(
        no_path.verify_integrity(Some(IMAGE), Some(&root)),
        Err("Hash tree path required".to_string())
    );
}

#[test]
fn signature_reports() {
    let config = full_config();
    let text = signature_text();
    assert_eq!(
        config.verify_signature(Some(IMAGE), Some(&text), true, true),
        Ok(SignatureReport {
            verified: true,
            key_id: Some("release-key-7".to_string()),
            message: "Signature verified successfully".to_string()
        })
    );
    let report = config.verify_signature(Some(IMAGE), Some(&text), true, false).unwrap();
    assert!(!report.verified);
    assert_eq!(report.key_id, None);
    assert_eq!(report.message, "Signature does not verify against the public key");
    assert_eq!(
        config.verify_signature(Some(IMAGE), Some(&text), false, true).unwrap().message,
        "Public key not found: /images/pubkey.pem"
    );
    assert_eq!(
        config.verify_signature(Some(IMAGE), None, true, true).unwrap().message,
        "Signature not found: /images/rootfs.sig"
    );
    assert_eq!(
        config.verify_signature(None, Some(&text), true, true).unwrap().message,
        "Rootfs image not found: /images/test-rootfs.ext4"
    );
    let no_path = RootfsConfig { signature_path: None, ..full_config() };
    assert_eq!(
        no_path.verify_signature(Some(IMAGE), Some(&text), true, true),
        Err("Signature path required".to_string())
    );
    let no_key_path = RootfsConfig { pub_key_path: None, ..full_config() };
    assert_eq!(
        no_key_path.verify_signature(Some(IMAGE), Some(&text), true, true),
        Err("Public key path required".to_string())
    );
}

#[test]
fn signature_of_a_changed_image_is_never_verified() {
    let config = full_config();
    let text = signature_text();
    let mut changed = IMAGE.to_vec();
    for i in 0..changed.len() {
        changed[i] ^= 1;
        assert_eq!(
            config.verify_signature(Some(&changed), Some(&text), true, true),
            Ok(SignatureReport {
                verified: false,
                key_id: None,
                message: "Checksum of the image does not match the signed checksum".to_string()
            })
        );
        changed[i] ^= 1;
    }
    assert!(config.verify_signature(Some(&changed), Some(&text), true, true).unwrap().verified);
}

#[test]
fn signature_file_without_a_record_is_never_verified() {
    let config = full_config();
    for text in ["", "not json", "{}", "[1, 2]", r#"{"signature": "sig-0"}"#] {
        assert_eq!(
            config.verify_signature(Some(IMAGE), Some(text), true, true),
            Ok(SignatureReport {
                verified: false,
                key_id: None,
                message: "Signature file holds no signature record".to_string()
            })
        );
    }
}

#[test]
fn setup_reports_what_is_mounted() {
    let config = full_config();
    let root = merkle_root_hex(IMAGE);
    let text = signature_text();
    assert_eq!(
        config.setup(all_good(&root, &text)),
        Ok(RootfsSetupReport {
            integrity_verified: true,
            signature_verified: true,
            key_id: Some("release-key-7".to_string()),
            mount_point: "/mnt/ironclaw-rootfs".to_string(),
        })
    );
}

#[test]
fn setup_refuses_tampered_and_unsigned_images() {
    let config = full_config();
    let root = merkle_root_hex(IMAGE);
    let text = signature_text();
    let tampered = RootfsProbe { hash_tree_root: Some("00ff"), ..all_good(&root, &text) };
    assert_eq!(
        config.setup(tampered).unwrap_err(),
        "Rootfs integrity check failed: Hash tree root does not match the image"
    );
    let unsigned = RootfsProbe { signature_valid: false, ..all_good(&root, &text) };
    assert_eq!(
        config.setup(unsigned).unwrap_err(),
        "Rootfs signature verification failed: Signature does not verify against the public key"
    );
    let no_signature = RootfsProbe { signature_file: None, ..all_good(&root, &text) };
    assert_eq!(
        config.setup(no_signature).unwrap_err(),
        "Rootfs signature verification failed: Signature not found: /images/rootfs.sig"
    );
    let changed = RootfsProbe { image: Some(b"rootfs image byteZ"), ..all_good(&root, &text) };
    assert!(config.setup(changed).is_err());
    let relaxed = RootfsConfig { enable_integrity: false, enable_signature: false, ..full_config() };
    let report = relaxed.setup(nothing_found()).unwrap();
    assert!(!report.integrity_verified && !report.signature_verified);
    assert_eq!(report.mount_point, "/mnt/ironclaw-rootfs");
}

#[test]
fn setup_refuses_an_image_whose_integrity_was_not_checked() {
    let config = full_config();
    let root = merkle_root_hex(IMAGE);
    let text = signature_text();
    let no_tree = RootfsProbe { hash_tree_root: None, ..all_good(&root, &text) };
    assert_eq!(
        config.setup(no_tree).unwrap_err(),
        "Rootfs integrity check failed: Hash tree not found: /images/hash.tree"
    );
    let no_image = RootfsProbe { image: None, ..all_good(&root, &text) };
    assert_eq!(
        config.setup(no_image).unwrap_err(),
        "Rootfs integrity check failed: Rootfs image not found: /images/test-rootfs.ext4"
    );
    let unsigned_only = RootfsConfig { enable_signature: false, ..full_config() };
    let report = unsigned_only.setup(no_signature_probe(&root)).unwrap();
    assert!(report.integrity_verified && !report.signature_verified);
    assert_eq!(report.key_id, None);
    let unchecked_only = RootfsConfig { enable_integrity: false, ..full_config() };
    let report = unchecked_only.setup(all_good("", &text)).unwrap();
    assert!(!report.integrity_verified && report.signature_verified);
}

fn no_signature_probe(root: &str) -> RootfsProbe<'_> {
    RootfsProbe {
        image: Some(IMAGE),
        hash_tree_root: Some(root),
        signature_file: None,
        public_key_exists: false,
        signature_valid: false,
    }
}

#[test]
fn image_is_always_mounted_read_only_with_an_overlay_for_tmp() {
    let config = RootfsConfig::new("/images/r.ext4".to_string());
    assert_eq!(
        config.mount_readonly(),
        vec!["-o", "ro,loop", "/images/r.ext4", "/mnt/ironclaw-rootfs"]
    );
    assert_eq!(
        config.setup_tmp_overlay(),
        vec![
            "-t",
            "overlay",
            "overlay",
            "-o",
            "lowerdir=/mnt/ironclaw-rootfs,upperdir=/tmp/ironclaw-overlay/upper,workdir=/tmp/ironclaw-overlay/work",
            "/mnt/ironclaw-rootfs/tmp",
        ]
    );
    assert_eq!(config.unmount(), vec!["/mnt/ironclaw-rootfs/tmp", "/mnt/ironclaw-rootfs"]);
    assert_eq!(config.upper_dir(), "/tmp/ironclaw-overlay/upper");
    assert_eq!(config.work_dir(), "/tmp/ironclaw-overlay/work");
}
