//! Parameters of the minimal guest image.

use crate::text::concat;
use vstd::prelude::*;

verus! {

/// How the guest image is built.
#[derive(Debug, Clone, PartialEq, Eq)]
pub struct GuestOsConfig {
    /// Version of the distribution.
    pub alpine_version: String,
    /// Architecture.
    pub arch: String,
    /// Additional packages.
    pub packages: Vec<String>,
    /// Size of the image in MB.
    pub rootfs_size_mb: u32,
    /// Where the image is written.
    pub output_path: String,
    /// Whether unnecessary binaries are removed.
    pub enable_hardening: bool,
}

/// The outcome of a build.
#[derive(Debug, Clone, Copy, PartialEq, Eq, Structural)]
pub struct BuildReport {
    pub success: bool,
    /// Size of the image in bytes.
    pub file_size: u64,
    /// Time taken, in milliseconds.
    pub build_time_ms: u64,
    pub packages_installed: usize,
}

/// What is known of an image.
#[derive(Debug, Clone, PartialEq, Eq)]
pub struct RootfsInfo {
    pub size_bytes: u64,
    pub file_count: usize,
    pub disk_usage: String,
}

/// The steps of a build, in their order.
#[derive(Debug, Clone, Copy, PartialEq, Eq, Structural)]
pub enum BuildStep {
    Download,
    CreateImage,
    Customize,
    Harden,
}

/// The name of the archive of a version for an architecture.
pub open spec fn archive_name(version: Seq<char>, arch: Seq<char>) -> Seq<char> {
    "alpine-minirootfs-"@ + version + "-"@ + arch + ".tar.gz"@
}

/// Where the archive of a version for an architecture is fetched from.
pub open spec fn archive_url(version: Seq<char>, arch: Seq<char>) -> Seq<char> {
    "https://dl-cdn.alpinelinux.org/alpine/"@ + version + "/releases/"@ + arch + "/"@
        + archive_name(version, arch)
}

/// Whether an image of `size_bytes` bytes takes at most `max_size_mb` whole
/// megabytes.
pub open spec fn size_within(size_bytes: u64, max_size_mb: u32) -> bool {
    size_bytes / 1_048_576 <= max_size_mb
}

impl Default for GuestOsConfig {
    fn default() -> (out: GuestOsConfig)
        ensures
            out.output_path@ == "/tmp/ironclaw-rootfs.ext4"@,
            out.has_default_build(),
    {
        let mut packages: Vec<String> = Vec::new();
        packages.push("ca-certificates".to_owned());
        packages.push("curl".to_owned());
        packages.push("busybox".to_owned());
        GuestOsConfig {
            alpine_version: "v3.19".to_owned(),
            arch: "x86_64".to_owned(),
            packages,
            rootfs_size_mb: 64,
            output_path: "/tmp/ironclaw-rootfs.ext4".to_owned(),
            enable_hardening: true,
        }
    }
}

impl GuestOsConfig {
    /// Everything but the output path has its default.
    pub open spec fn has_default_build(self) -> bool {
        &&& self.alpine_version@ == "v3.19"@
        &&& self.arch@ == "x86_64"@
        &&& self.packages@.len() == 3
        &&& self.packages@[0]@ == "ca-certificates"@
        &&& self.packages@[1]@ == "curl"@
        &&& self.packages@[2]@ == "busybox"@
        &&& self.rootfs_size_mb == 64
        &&& self.enable_hardening
    }

    /// The steps that a build with this configuration takes: hardening is
    /// the last step, and is taken only where it is enabled.
    pub open spec fn steps(self) -> Seq<BuildStep> {
        let fixed = seq![BuildStep::Download, BuildStep::CreateImage, BuildStep::Customize];
        if self.enable_hardening {
            fixed.push(BuildStep::Harden)
        } else {
            fixed
        }
    }

    /// A configuration with defaults that writes to `output_path`.
    pub fn new(output_path: String) -> (out: GuestOsConfig)
        ensures
            out.output_path@ == output_path@,
            out.has_default_build(),
    {
        let mut packages: Vec<String> = Vec::new();
        packages.push("ca-certificates".to_owned());
        packages.push("curl".to_owned());
        packages.push("busybox".to_owned());
        GuestOsConfig {
            alpine_version: "v3.19".to_owned(),
            arch: "x86_64".to_owned(),
            packages,
            rootfs_size_mb: 64,
            output_path,
            enable_hardening: true,
        }
    }

    /// The name of the archive to build from.
    pub fn minirootfs_filename(&self) -> (out: String)
        ensures
            out@ == archive_name(self.alpine_version@, self.arch@),
    {
        let out = concat("alpine-minirootfs-", self.alpine_version.as_str());
        let out = concat(out.as_str(), "-");
        let out = concat(out.as_str(), self.arch.as_str());
        let out = concat(out.as_str(), ".tar.gz");
        assert(out@ =~= archive_name(self.alpine_version@, self.arch@));
        out
    }

    /// Where the archive is fetched from.
    pub fn download_url(&self) -> (out: String)
        ensures
            out@ == archive_url(self.alpine_version@, self.arch@),
    {
        let name = self.minirootfs_filename();
        let out = concat("https://dl-cdn.alpinelinux.org/alpine/", self.alpine_version.as_str());
        let out = concat(out.as_str(), "/releases/");
        let out = concat(out.as_str(), self.arch.as_str());
        let out = concat(out.as_str(), "/");
        let out = concat(out.as_str(), name.as_str());
        assert(out@ =~= archive_url(self.alpine_version@, self.arch@));
        out
    }

    /// The steps of the build.
    pub fn build(&self) -> (out: Vec<BuildStep>)
        ensures
            out@ == self.steps(),
    {
        let mut out: Vec<BuildStep> = Vec::new();
        out.push(BuildStep::Download);
        out.push(BuildStep::CreateImage);
        out.push(BuildStep::Customize);
        if self.enable_hardening {
            out.push(BuildStep::Harden);
        }
        assert(out@ =~= self.steps());
        out
    }

    /// The report of a build that succeeded.
    pub fn report(&self, file_size: u64, build_time_ms: u64) -> (out: BuildReport)
        ensures
            out == (BuildReport {
                success: true,
                file_size,
                build_time_ms,
                packages_installed: self.packages@.len() as usize,
            }),
    {
        BuildReport { success: true, file_size, build_time_ms, packages_installed: self.packages.len() }
    }
}

/// Whether an image of `size_bytes` bytes meets the size limit.
pub fn validate_rootfs_size(size_bytes: u64, max_size_mb: u32) -> (out: bool)
    ensures
        out == size_within(size_bytes, max_size_mb),
{
    size_bytes / 1_048_576 <= max_size_mb as u64
}

} // verus!
