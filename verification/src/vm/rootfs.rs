//! The hardened root filesystem: a read-only image whose integrity and
//! signature are checked before use, with a writable overlay for `/tmp`.
//!
//! The library decides from what was found on the host and builds the
//! mount commands. Looking at the host and mounting are left to the caller.

use crate::json::json_parse;
use crate::text::{concat, same_text, trim_blanks, trim_seq};
use crate::vm::firewall::words_model;
use crate::vm::signature::{
    checksum_matches, checksum_of, optional_bytes, optional_str, parse_signature_file,
    signature_of_document, tree_root_of, RootfsSignatureView,
};
use crate::vm::verity::merkle_root_hex;
use vstd::prelude::*;

verus! {

/// How the root filesystem of a VM is set up.
#[derive(Debug, Clone, PartialEq, Eq)]
pub struct RootfsConfig {
    /// The image.
    pub rootfs_path: String,
    /// The hash tree over the blocks of the image.
    pub hash_tree_path: Option<String>,
    /// The detached signature of the image.
    pub signature_path: Option<String>,
    /// The public key that the signature is checked against.
    pub pub_key_path: Option<String>,
    /// Where the image is mounted.
    pub mount_point: String,
    /// The directory that holds the overlay's work and upper directories.
    pub tmp_overlay_path: String,
    /// Whether the hash tree is checked.
    pub enable_integrity: bool,
    /// Whether the signature is checked.
    pub enable_signature: bool,
}

/// What was read from the host about the files of a root filesystem.
#[derive(Debug, Clone, Copy)]
pub struct RootfsProbe<'a> {
    /// The bytes of the image, where it is there.
    pub image: Option<&'a [u8]>,
    /// The text of the file that holds the root of the hash tree, where it
    /// is there.
    pub hash_tree_root: Option<&'a str>,
    /// The text of the signature file, where it is there.
    pub signature_file: Option<&'a str>,
    /// The public key exists.
    pub public_key_exists: bool,
    /// The detached signature verifies against the public key.
    pub signature_valid: bool,
}

/// The model of what was read from the host.
pub struct RootfsProbeView {
    pub image: Option<Seq<u8>>,
    pub hash_tree_root: Option<Seq<char>>,
    pub signature_file: Option<Seq<char>>,
    pub public_key_exists: bool,
    pub signature_valid: bool,
}

impl<'a> View for RootfsProbe<'a> {
    type V = RootfsProbeView;

    open spec fn view(&self) -> RootfsProbeView {
        RootfsProbeView {
            image: optional_bytes(self.image),
            hash_tree_root: optional_str(self.hash_tree_root),
            signature_file: optional_str(self.signature_file),
            public_key_exists: self.public_key_exists,
            signature_valid: self.signature_valid,
        }
    }
}

/// Why a root filesystem configuration is refused.
#[derive(Debug, Clone, Copy, PartialEq, Eq, Structural)]
pub enum RootfsConfigError {
    MissingRootfs,
    NoHashTreePath,
    NoSignaturePath,
    NoPublicKeyPath,
}

/// The outcome of the integrity check.
#[derive(Debug, Clone, PartialEq, Eq)]
pub struct IntegrityReport {
    /// The hash tree was checked and found good.
    pub verified: bool,
    /// The hash tree was checked and found bad.
    pub tampered: bool,
    /// What happened, in words.
    pub message: String,
}

/// The outcome of the signature check.
#[derive(Debug, Clone, PartialEq, Eq)]
pub struct SignatureReport {
    /// The signature was checked and found good.
    pub verified: bool,
    /// The id of the key that verified the signature.
    pub key_id: Option<String>,
    /// What happened, in words.
    pub message: String,
}

/// The outcome of setting a root filesystem up.
#[derive(Debug, Clone, PartialEq, Eq)]
pub struct RootfsSetupReport {
    pub integrity_verified: bool,
    pub signature_verified: bool,
    pub key_id: Option<String>,
    pub mount_point: String,
}

/// The model of an integrity report.
pub struct IntegrityReportView {
    pub verified: bool,
    pub tampered: bool,
    pub message: Seq<char>,
}

/// The model of a signature report.
pub struct SignatureReportView {
    pub verified: bool,
    pub key_id: Option<Seq<char>>,
    pub message: Seq<char>,
}

/// The model of a setup report.
pub struct RootfsSetupReportView {
    pub integrity_verified: bool,
    pub signature_verified: bool,
    pub key_id: Option<Seq<char>>,
    pub mount_point: Seq<char>,
}

/// The characters of an optional string.
pub open spec fn optional_text(s: Option<String>) -> Option<Seq<char>> {
    match s {
        Some(t) => Some(t@),
        None => None,
    }
}

impl View for IntegrityReport {
    type V = IntegrityReportView;

    open spec fn view(&self) -> IntegrityReportView {
        IntegrityReportView {
            verified: self.verified,
            tampered: self.tampered,
            message: self.message@,
        }
    }
}

impl View for SignatureReport {
    type V = SignatureReportView;

    open spec fn view(&self) -> SignatureReportView {
        SignatureReportView {
            verified: self.verified,
            key_id: optional_text(self.key_id),
            message: self.message@,
        }
    }
}

impl View for RootfsSetupReport {
    type V = RootfsSetupReportView;

    open spec fn view(&self) -> RootfsSetupReportView {
        RootfsSetupReportView {
            integrity_verified: self.integrity_verified,
            signature_verified: self.signature_verified,
            key_id: optional_text(self.key_id),
            mount_point: self.mount_point@,
        }
    }
}

impl Default for RootfsConfig {
    fn default() -> (out: RootfsConfig)
        ensures
            out.rootfs_path@ == "/opt/ironclaw/rootfs.ext4"@,
            out.has_default_policy(),
    {
        RootfsConfig {
            rootfs_path: "/opt/ironclaw/rootfs.ext4".to_owned(),
            hash_tree_path: None,
            signature_path: None,
            pub_key_path: None,
            mount_point: "/mnt/ironclaw-rootfs".to_owned(),
            tmp_overlay_path: "/tmp/ironclaw-overlay".to_owned(),
            enable_integrity: true,
            enable_signature: true,
        }
    }
}

/// The record that the text of a signature file holds, if it holds one.
pub open spec fn record_in(text: Seq<char>) -> Option<RootfsSignatureView> {
    match json_parse(text) {
        Some(doc) => signature_of_document(doc),
        None => None,
    }
}

/// The report of an integrity check that found nothing to judge.
pub open spec fn unchecked_integrity(message: Seq<char>) -> IntegrityReportView {
    IntegrityReportView { verified: false, tampered: false, message }
}

/// The report of a signature check that did not verify the signature.
pub open spec fn unverified_signature(message: Seq<char>) -> SignatureReportView {
    SignatureReportView { verified: false, key_id: None, message }
}

/// The model of the result of a check that may refuse with a message.
pub open spec fn integrity_result_model(r: Result<IntegrityReport, String>) -> Result<
    IntegrityReportView,
    Seq<char>,
> {
    match r {
        Ok(v) => Ok(v@),
        Err(e) => Err(e@),
    }
}

/// The model of the result of a signature check.
pub open spec fn signature_result_model(r: Result<SignatureReport, String>) -> Result<
    SignatureReportView,
    Seq<char>,
> {
    match r {
        Ok(v) => Ok(v@),
        Err(e) => Err(e@),
    }
}

/// The model of the result of a setup.
pub open spec fn setup_result_model(r: Result<RootfsSetupReport, String>) -> Result<
    RootfsSetupReportView,
    Seq<char>,
> {
    match r {
        Ok(v) => Ok(v@),
        Err(e) => Err(e@),
    }
}

impl RootfsConfig {
    /// Everything but the image has its default: both checks on, no paths
    /// for them, the default mount point and overlay directory.
    pub open spec fn has_default_policy(self) -> bool {
        &&& self.hash_tree_path is None
        &&& self.signature_path is None
        &&& self.pub_key_path is None
        &&& self.mount_point@ == "/mnt/ironclaw-rootfs"@
        &&& self.tmp_overlay_path@ == "/tmp/ironclaw-overlay"@
        &&& self.enable_integrity
        &&& self.enable_signature
    }

    /// The first rule that the configuration breaks, if any.
    pub open spec fn violation(self, rootfs_exists: bool) -> Option<RootfsConfigError> {
        if !rootfs_exists {
            Some(RootfsConfigError::MissingRootfs)
        } else if self.enable_integrity && self.hash_tree_path is None {
            Some(RootfsConfigError::NoHashTreePath)
        } else if self.enable_signature && self.signature_path is None {
            Some(RootfsConfigError::NoSignaturePath)
        } else if self.enable_signature && self.pub_key_path is None {
            Some(RootfsConfigError::NoPublicKeyPath)
        } else {
            None
        }
    }

    /// The text that describes a refusal.
    pub open spec fn violation_text(self, e: RootfsConfigError) -> Seq<char> {
        match e {
            RootfsConfigError::MissingRootfs => "Rootfs path does not exist: "@ + self.rootfs_path@,
            RootfsConfigError::NoHashTreePath => "Integrity checking enabled but no hash tree path provided"@,
            RootfsConfigError::NoSignaturePath => "Signature verification enabled but no signature path provided"@,
            RootfsConfigError::NoPublicKeyPath => "Signature verification enabled but no public key path provided"@,
        }
    }

    /// What the integrity check yields. The hash tree is good where the
    /// root kept on the host, without the blank space around it, is the
    /// root of the hash tree of the image.
    pub open spec fn integrity_outcome(
        self,
        image: Option<Seq<u8>>,
        hash_tree_root: Option<Seq<char>>,
    ) -> Result<IntegrityReportView, Seq<char>> {
        if !self.enable_integrity {
            Ok(unchecked_integrity("Integrity checking disabled"@))
        } else {
            match self.hash_tree_path {
                None => Err("Hash tree path required"@),
                Some(path) => match (hash_tree_root, image) {
                    (None, _) => Ok(unchecked_integrity("Hash tree not found: "@ + path@)),
                    (Some(_), None) => Ok(
                        unchecked_integrity("Rootfs image not found: "@ + self.rootfs_path@),
                    ),
                    (Some(root), Some(bytes)) => if trim_seq(root) != tree_root_of(bytes) {
                        Ok(
                            IntegrityReportView {
                                verified: false,
                                tampered: true,
                                message: "Hash tree root does not match the image"@,
                            },
                        )
                    } else {
                        Ok(
                            IntegrityReportView {
                                verified: true,
                                tampered: false,
                                message: "Rootfs integrity verified"@,
                            },
                        )
                    },
                },
            }
        }
    }

    /// What the signature check yields. The signature is verified only
    /// where the signature file holds a record, the image has the checksum
    /// of the record, and the detached signature verified against the
    /// public key. The key that is reported is the one that the record
    /// names.
    pub open spec fn signature_outcome(
        self,
        image: Option<Seq<u8>>,
        signature_file: Option<Seq<char>>,
        public_key_exists: bool,
        signature_valid: bool,
    ) -> Result<SignatureReportView, Seq<char>> {
        if !self.enable_signature {
            Ok(unverified_signature("Signature verification disabled"@))
        } else {
            match (self.signature_path, self.pub_key_path) {
                (None, _) => Err("Signature path required"@),
                (Some(_), None) => Err("Public key path required"@),
                (Some(signature), Some(key)) => match signature_file {
                    None => Ok(unverified_signature("Signature not found: "@ + signature@)),
                    Some(text) => if !public_key_exists {
                        Ok(unverified_signature("Public key not found: "@ + key@))
                    } else {
                        match (record_in(text), image) {
                            (None, _) => Ok(
                                unverified_signature("Signature file holds no signature record"@),
                            ),
                            (Some(_), None) => Ok(
                                unverified_signature(
                                    "Rootfs image not found: "@ + self.rootfs_path@,
                                ),
                            ),
                            (Some(record), Some(bytes)) => if checksum_of(bytes)
                                != record.checksum {
                                Ok(
                                    unverified_signature(
                                        "Checksum of the image does not match the signed checksum"@,
                                    ),
                                )
                            } else if !signature_valid {
                                Ok(
                                    unverified_signature(
                                        "Signature does not verify against the public key"@,
                                    ),
                                )
                            } else {
                                Ok(
                                    SignatureReportView {
                                        verified: true,
                                        key_id: Some(record.key_id),
                                        message: "Signature verified successfully"@,
                                    },
                                )
                            },
                        }
                    },
                },
            }
        }
    }

    /// What the setup yields: a report once every check that is on has
    /// verified the image, a refusal otherwise. A tampered image is refused
    /// in any case.
    pub open spec fn setup_outcome(self, probe: RootfsProbeView) -> Result<
        RootfsSetupReportView,
        Seq<char>,
    > {
        match self.integrity_outcome(probe.image, probe.hash_tree_root) {
            Err(e) => Err(e),
            Ok(integrity) => if integrity.tampered || (self.enable_integrity
                && !integrity.verified) {
                Err("Rootfs integrity check failed: "@ + integrity.message)
            } else {
                match self.signature_outcome(
                    probe.image,
                    probe.signature_file,
                    probe.public_key_exists,
                    probe.signature_valid,
                ) {
                    Err(e) => Err(e),
                    Ok(signature) => if !signature.verified && self.enable_signature {
                        Err("Rootfs signature verification failed: "@ + signature.message)
                    } else {
                        Ok(
                            RootfsSetupReportView {
                                integrity_verified: integrity.verified,
                                signature_verified: signature.verified,
                                key_id: signature.key_id,
                                mount_point: self.mount_point@,
                            },
                        )
                    },
                }
            },
        }
    }

    /// A configuration for the given image with the default policy.
    pub fn new(rootfs_path: String) -> (out: RootfsConfig)
        ensures
            out.rootfs_path@ == rootfs_path@,
            out.has_default_policy(),
    {
        RootfsConfig {
            rootfs_path,
            hash_tree_path: None,
            signature_path: None,
            pub_key_path: None,
            mount_point: "/mnt/ironclaw-rootfs".to_owned(),
            tmp_overlay_path: "/tmp/ironclaw-overlay".to_owned(),
            enable_integrity: true,
            enable_signature: true,
        }
    }

    /// Finds the first rule that the configuration breaks, given whether
    /// the image exists.
    pub fn check(&self, rootfs_exists: bool) -> (out: Result<(), RootfsConfigError>)
        ensures
            match out {
                Ok(()) => self.violation(rootfs_exists) is None,
                Err(e) => self.violation(rootfs_exists) == Some(e),
            },
    {
        if !rootfs_exists {
            Err(RootfsConfigError::MissingRootfs)
        } else if self.enable_integrity && self.hash_tree_path.is_none() {
            Err(RootfsConfigError::NoHashTreePath)
        } else if self.enable_signature && self.signature_path.is_none() {
            Err(RootfsConfigError::NoSignaturePath)
        } else if self.enable_signature && self.pub_key_path.is_none() {
            Err(RootfsConfigError::NoPublicKeyPath)
        } else {
            Ok(())
        }
    }

    /// Accepts the configuration, or says which rule it breaks, given
    /// whether the image exists.
    pub fn validate(&self, rootfs_exists: bool) -> (out: Result<(), String>)
        ensures
            match out {
                Ok(()) => self.violation(rootfs_exists) is None,
                Err(msg) => self.violation(rootfs_exists) matches Some(e) && msg@
                    == self.violation_text(e),
            },
    {
        match self.check(rootfs_exists) {
            Ok(()) => Ok(()),
            Err(RootfsConfigError::MissingRootfs) => Err(
                concat("Rootfs path does not exist: ", self.rootfs_path.as_str()),
            ),
            Err(RootfsConfigError::NoHashTreePath) => Err(
                "Integrity checking enabled but no hash tree path provided".to_owned(),
            ),
            Err(RootfsConfigError::NoSignaturePath) => Err(
                "Signature verification enabled but no signature path provided".to_owned(),
            ),
            Err(RootfsConfigError::NoPublicKeyPath) => Err(
                "Signature verification enabled but no public key path provided".to_owned(),
            ),
        }
    }

    /// Judges the integrity of the image from its bytes and from the root
    /// of the hash tree that the host keeps, each where it is there.
    pub fn verify_integrity(&self, image: Option<&[u8]>, hash_tree_root: Option<&str>) -> (out:
        Result<IntegrityReport, String>)
        ensures
            integrity_result_model(out) == self.integrity_outcome(
                optional_bytes(image),
                optional_str(hash_tree_root),
            ),
    {
        if !self.enable_integrity {
            return Ok(unchecked("Integrity checking disabled".to_owned()));
        }
        let path = match &self.hash_tree_path {
            Some(path) => path,
            None => {
                return Err("Hash tree path required".to_owned());
            },
        };
        let root = match hash_tree_root {
            Some(root) => root,
            None => {
                return Ok(unchecked(concat("Hash tree not found: ", path.as_str())));
            },
        };
        let bytes = match image {
            Some(bytes) => bytes,
            None => {
                return Ok(
                    unchecked(concat("Rootfs image not found: ", self.rootfs_path.as_str())),
                );
            },
        };
        let kept = trim_blanks(root);
        let computed = merkle_root_hex(bytes);
        if !same_text(kept.as_str(), computed.as_str()) {
            return Ok(
                IntegrityReport {
                    verified: false,
                    tampered: true,
                    message: "Hash tree root does not match the image".to_owned(),
                },
            );
        }
        Ok(
            IntegrityReport {
                verified: true,
                tampered: false,
                message: "Rootfs integrity verified".to_owned(),
            },
        )
    }

    /// Judges the signature of the image from its bytes and the text of the
    /// signature file, each where it is there, from whether the public key
    /// is there, and from what the check of the detached signature against
    /// that key came to.
    pub fn verify_signature(
        &self,
        image: Option<&[u8]>,
        signature_file: Option<&str>,
        public_key_exists: bool,
        signature_valid: bool,
    ) -> (out: Result<SignatureReport, String>)
        ensures
            signature_result_model(out) == self.signature_outcome(
                optional_bytes(image),
                optional_str(signature_file),
                public_key_exists,
                signature_valid,
            ),
    {
        if !self.enable_signature {
            return Ok(unverified("Signature verification disabled".to_owned()));
        }
        let signature = match &self.signature_path {
            Some(path) => path,
            None => {
                return Err("Signature path required".to_owned());
            },
        };
        let key = match &self.pub_key_path {
            Some(path) => path,
            None => {
                return Err("Public key path required".to_owned());
            },
        };
        let text = match signature_file {
            Some(text) => text,
            None => {
                return Ok(unverified(concat("Signature not found: ", signature.as_str())));
            },
        };
        if !public_key_exists {
            return Ok(unverified(concat("Public key not found: ", key.as_str())));
        }
        let record = match parse_signature_file(text) {
            Some(record) => record,
            None => {
                return Ok(unverified("Signature file holds no signature record".to_owned()));
            },
        };
        let bytes = match image {
            Some(bytes) => bytes,
            None => {
                return Ok(
                    unverified(concat("Rootfs image not found: ", self.rootfs_path.as_str())),
                );
            },
        };
        if !checksum_matches(bytes, &record) {
            return Ok(
                unverified("Checksum of the image does not match the signed checksum".to_owned()),
            );
        }
        if !signature_valid {
            return Ok(unverified("Signature does not verify against the public key".to_owned()));
        }
        Ok(
            SignatureReport {
                verified: true,
                key_id: Some(record.key_id),
                message: "Signature verified successfully".to_owned(),
            },
        )
    }

    /// Runs both checks on what was read from the host and, where they
    /// allow it, reports what is to be mounted. Nothing is mounted unless
    /// every check that is on has verified the image.
    pub fn setup(&self, probe: RootfsProbe<'_>) -> (out: Result<RootfsSetupReport, String>)
        ensures
            setup_result_model(out) == self.setup_outcome(probe@),
            out matches Ok(report) ==> {
                &&& self.enable_integrity ==> report.integrity_verified
                &&& self.enable_signature ==> report.signature_verified
                &&& report.mount_point@ == self.mount_point@
            },
    {
        let integrity = match self.verify_integrity(probe.image, probe.hash_tree_root) {
            Ok(report) => report,
            Err(e) => {
                return Err(e);
            },
        };
        if integrity.tampered || (self.enable_integrity && !integrity.verified) {
            return Err(concat("Rootfs integrity check failed: ", integrity.message.as_str()));
        }
        let signature = match self.verify_signature(
            probe.image,
            probe.signature_file,
            probe.public_key_exists,
            probe.signature_valid,
        ) {
            Ok(report) => report,
            Err(e) => {
                return Err(e);
            },
        };
        if !signature.verified && self.enable_signature {
            return Err(
                concat("Rootfs signature verification failed: ", signature.message.as_str()),
            );
        }
        Ok(
            RootfsSetupReport {
                integrity_verified: integrity.verified,
                signature_verified: signature.verified,
                key_id: signature.key_id,
                mount_point: self.mount_point.clone(),
            },
        )
    }

    /// The arguments of the command that mounts the image: always
    /// read-only.
    pub open spec fn readonly_mount_arguments(self) -> Seq<Seq<char>> {
        seq!["-o"@, "ro,loop"@, self.rootfs_path@, self.mount_point@]
    }

    /// The work directory of the overlay.
    pub open spec fn work_dir_text(self) -> Seq<char> {
        self.tmp_overlay_path@ + "/work"@
    }

    /// The upper directory of the overlay, which holds what the guest
    /// writes and is discarded on teardown.
    pub open spec fn upper_dir_text(self) -> Seq<char> {
        self.tmp_overlay_path@ + "/upper"@
    }

    /// Where the overlay is mounted: the `tmp` directory of the image.
    pub open spec fn tmp_mount_text(self) -> Seq<char> {
        self.mount_point@ + "/tmp"@
    }

    /// The options of the overlay mount.
    pub open spec fn overlay_options_text(self) -> Seq<char> {
        "lowerdir="@ + self.mount_point@ + ",upperdir="@ + self.upper_dir_text() + ",workdir="@
            + self.work_dir_text()
    }

    /// The arguments of the command that mounts the overlay.
    pub open spec fn overlay_mount_arguments(self) -> Seq<Seq<char>> {
        seq![
            "-t"@,
            "overlay"@,
            "overlay"@,
            "-o"@,
            self.overlay_options_text(),
            self.tmp_mount_text(),
        ]
    }

    /// The work directory of the overlay.
    pub fn work_dir(&self) -> (out: String)
        ensures
            out@ == self.work_dir_text(),
    {
        concat(self.tmp_overlay_path.as_str(), "/work")
    }

    /// The upper directory of the overlay.
    pub fn upper_dir(&self) -> (out: String)
        ensures
            out@ == self.upper_dir_text(),
    {
        concat(self.tmp_overlay_path.as_str(), "/upper")
    }

    /// Where the overlay is mounted.
    pub fn tmp_mount(&self) -> (out: String)
        ensures
            out@ == self.tmp_mount_text(),
    {
        concat(self.mount_point.as_str(), "/tmp")
    }

    /// The arguments of the command that mounts the image read-only.
    pub fn mount_readonly(&self) -> (out: Vec<String>)
        ensures
            words_model(out@) == self.readonly_mount_arguments(),
    {
        let mut out: Vec<String> = Vec::new();
        out.push("-o".to_owned());
        out.push("ro,loop".to_owned());
        out.push(self.rootfs_path.clone());
        out.push(self.mount_point.clone());
        assert(words_model(out@) =~= self.readonly_mount_arguments());
        out
    }

    /// The arguments of the command that mounts the writable overlay for
    /// `/tmp`.
    pub fn setup_tmp_overlay(&self) -> (out: Vec<String>)
        ensures
            words_model(out@) == self.overlay_mount_arguments(),
    {
        let upper = self.upper_dir();
        let work = self.work_dir();
        let options = concat("lowerdir=", self.mount_point.as_str());
        let options = concat(options.as_str(), ",upperdir=");
        let options = concat(options.as_str(), upper.as_str());
        let options = concat(options.as_str(), ",workdir=");
        let options = concat(options.as_str(), work.as_str());
        assert(options@ =~= self.overlay_options_text());
        let mut out: Vec<String> = Vec::new();
        out.push("-t".to_owned());
        out.push("overlay".to_owned());
        out.push("overlay".to_owned());
        out.push("-o".to_owned());
        out.push(options);
        out.push(self.tmp_mount());
        assert(words_model(out@) =~= self.overlay_mount_arguments());
        out
    }

    /// What to unmount on teardown, in order: the overlay first, then the
    /// image.
    pub fn unmount(&self) -> (out: Vec<String>)
        ensures
            words_model(out@) == seq![self.tmp_mount_text(), self.mount_point@],
    {
        let mut out: Vec<String> = Vec::new();
        out.push(self.tmp_mount());
        out.push(self.mount_point.clone());
        assert(words_model(out@) =~= seq![self.tmp_mount_text(), self.mount_point@]);
        out
    }
}

/// No image is set up unless every check that is on has verified it: with
/// integrity checking on, the hash tree was found good; with signature
/// checking on, the signature was. What is set up is mounted where the
/// configuration says.
pub proof fn lemma_setup_enforces_checks(config: RootfsConfig, probe: RootfsProbeView)
    ensures
        config.setup_outcome(probe) matches Ok(report) ==> {
            &&& config.enable_integrity ==> report.integrity_verified
            &&& config.enable_signature ==> report.signature_verified
            &&& report.mount_point == config.mount_point@
        },
{
}

/// With signature checking on, an image that does not have the checksum of
/// the record in the signature file is never set up, whatever the check of
/// the detached signature came to.
pub proof fn lemma_setup_refuses_changed_image(config: RootfsConfig, probe: RootfsProbeView)
    requires
        config.enable_signature,
        probe.image matches Some(bytes) && probe.signature_file matches Some(text) && (record_in(
            text,
        ) matches Some(record) ==> checksum_of(bytes) != record.checksum),
    ensures
        config.setup_outcome(probe) is Err,
{
}

/// With integrity checking on, an image whose hash tree has another root
/// than the one kept on the host is never set up.
pub proof fn lemma_setup_refuses_foreign_tree(config: RootfsConfig, probe: RootfsProbeView)
    requires
        config.enable_integrity,
        probe.image matches Some(bytes) && probe.hash_tree_root matches Some(root) && trim_seq(root)
            != tree_root_of(bytes),
    ensures
        config.setup_outcome(probe) is Err,
{
}

/// The report of an integrity check that found nothing to judge.
fn unchecked(message: String) -> (out: IntegrityReport)
    ensures
        out@ == unchecked_integrity(message@),
{
    IntegrityReport { verified: false, tampered: false, message }
}

/// The report of a signature check that did not verify the signature.
fn unverified(message: String) -> (out: SignatureReport)
    ensures
        out@ == unverified_signature(message@),
{
    SignatureReport { verified: false, key_id: None, message }
}

} // verus!
