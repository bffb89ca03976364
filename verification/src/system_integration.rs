//! Records describing the host system, and the rules for filling them.
//!
//! Querying the OS (hostname, versions, memory, disk space) is left to the
//! caller; this module defines the records those facts are reported in and
//! the platform-keyed assembly of the per-OS details.

use vstd::prelude::*;

use crate::platform::Platform;

verus! {

/// A snapshot of the host system.
#[derive(Debug, Clone)]
pub struct SystemInfo {
    pub os_type: String,
    pub os_version: String,
    pub arch: String,
    pub hostname: String,
    pub total_memory: Option<u64>,
    pub available_memory: Option<u64>,
    pub disk_space: Option<DiskSpaceInfo>,
}

/// Disk usage of the volume the application runs on, in bytes.
#[derive(Debug, Clone, Copy)]
pub struct DiskSpaceInfo {
    pub total: u64,
    pub available: u64,
    pub used: u64,
}

/// Platform capabilities plus the per-OS details.
#[derive(Debug, Clone)]
pub struct PlatformInfo {
    pub is_desktop: bool,
    pub supports_notifications: bool,
    pub supports_file_dialogs: bool,
    pub supports_system_theme: bool,
    pub platform_specific: PlatformSpecific,
}

/// The per-OS detail records, one for each supported OS.
#[derive(Debug, Clone)]
pub struct PlatformSpecific {
    pub windows: WindowsInfo,
    pub macos: MacOSInfo,
    pub linux: LinuxInfo,
}

/// Windows-only details.
#[derive(Debug, Clone)]
pub struct WindowsInfo {
    pub is_windows: bool,
    pub version: Option<String>,
    pub build_number: Option<String>,
}

/// macOS-only details.
#[derive(Debug, Clone)]
pub struct MacOSInfo {
    pub is_macos: bool,
    pub version: Option<String>,
    pub darwin_version: Option<String>,
}

/// Linux-only details.
#[derive(Debug, Clone)]
pub struct LinuxInfo {
    pub is_linux: bool,
    pub distribution: Option<String>,
    pub desktop_environment: Option<String>,
}

/// Assemble the per-OS details for the given platform: each record's flag
/// says whether it is the running OS, and the queried values are kept only
/// on the record of the OS they belong to.
pub fn build_platform_specific(
    platform: Platform,
    windows_version: Option<String>,
    windows_build_number: Option<String>,
    macos_version: Option<String>,
    darwin_version: Option<String>,
    linux_distribution: Option<String>,
    desktop_environment: Option<String>,
) -> (r: PlatformSpecific)
    ensures
        r.windows.is_windows == (platform == Platform::Windows),
        r.macos.is_macos == (platform == Platform::Macos),
        r.linux.is_linux == (platform == Platform::Linux),
        platform == Platform::Windows ==> r.windows.version == windows_version
            && r.windows.build_number == windows_build_number,
        platform != Platform::Windows ==> (r.windows.version matches None)
            && (r.windows.build_number matches None),
        platform == Platform::Macos ==> r.macos.version == macos_version
            && r.macos.darwin_version == darwin_version,
        platform != Platform::Macos ==> (r.macos.version matches None)
            && (r.macos.darwin_version matches None),
        platform == Platform::Linux ==> r.linux.distribution == linux_distribution
            && r.linux.desktop_environment == desktop_environment,
        platform != Platform::Linux ==> (r.linux.distribution matches None)
            && (r.linux.desktop_environment matches None),
{
    let is_windows = matches!(platform, Platform::Windows);
    let is_macos = matches!(platform, Platform::Macos);
    let is_linux = matches!(platform, Platform::Linux);
    PlatformSpecific {
        windows: WindowsInfo {
            is_windows,
            version: if is_windows {
                windows_version
            } else {
                None
            },
            build_number: if is_windows {
                windows_build_number
            } else {
                None
            },
        },
        macos: MacOSInfo {
            is_macos,
            version: if is_macos {
                macos_version
            } else {
                None
            },
            darwin_version: if is_macos {
                darwin_version
            } else {
                None
            },
        },
        linux: LinuxInfo {
            is_linux,
            distribution: if is_linux {
                linux_distribution
            } else {
                None
            },
            desktop_environment: if is_linux {
                desktop_environment
            } else {
                None
            },
        },
    }
}

} // verus!
