//! Platform identity and capability detection.
//!
//! The classifier and its rule tables are keyed by an explicit [`Platform`]
//! value instead of compile-time conditionals, so one compiled artifact can
//! be exercised against every platform's rule set. The caller supplies the
//! OS identity string (for example from `std::env::consts::OS`).

use vstd::prelude::*;

use crate::strutil::str_eq;

verus! {

/// The host operating-system identity the classifier is evaluated under.
#[derive(Debug, Clone, Copy, PartialEq, Eq, Structural)]
pub enum Platform {
    Windows,
    Macos,
    Linux,
    Other,
}

/// The platform named by an OS identity string.
pub open spec fn spec_platform_of(os_type: Seq<char>) -> Platform {
    if os_type == "windows"@ {
        Platform::Windows
    } else if os_type == "macos"@ {
        Platform::Macos
    } else if os_type == "linux"@ {
        Platform::Linux
    } else {
        Platform::Other
    }
}

/// The OS identity names a desktop platform.
pub open spec fn spec_is_desktop(os_type: Seq<char>) -> bool {
    os_type == "windows"@ || os_type == "macos"@ || os_type == "linux"@
}

impl Platform {
    /// Map an OS identity string to its platform value.
    pub fn from_os_type(os_type: &str) -> (p: Platform)
        ensures
            p == spec_platform_of(os_type@),
    {
        if str_eq(os_type, "windows") {
            Platform::Windows
        } else if str_eq(os_type, "macos") {
            Platform::Macos
        } else if str_eq(os_type, "linux") {
            Platform::Linux
        } else {
            Platform::Other
        }
    }
}

/// Capabilities of the platform the application runs on.
#[derive(Debug, Clone)]
pub struct PlatformInfo {
    pub os_type: String,
    pub arch: String,
    pub is_desktop: bool,
    pub is_mobile: bool,
    pub is_web: bool,
    pub supports_notifications: bool,
    pub supports_file_dialogs: bool,
    pub supports_system_theme: bool,
}

/// Capability rules for a given OS identity.
pub struct PlatformDetection;

impl PlatformDetection {
    /// The OS identity names a desktop platform.
    pub fn is_desktop(os_type: &str) -> (r: bool)
        ensures
            r == spec_is_desktop(os_type@),
    {
        str_eq(os_type, "windows") || str_eq(os_type, "macos") || str_eq(os_type, "linux")
    }

    /// No supported platform is a mobile one.
    pub fn is_mobile(os_type: &str) -> (r: bool)
        ensures
            r == false,
    {
        let _ = os_type;
        false
    }

    /// Desktop platforms support notifications.
    pub fn supports_notifications(os_type: &str) -> (r: bool)
        ensures
            r == spec_is_desktop(os_type@),
    {
        Self::is_desktop(os_type)
    }

    /// Desktop platforms support system theme detection.
    pub fn supports_system_theme(os_type: &str) -> (r: bool)
        ensures
            r == spec_is_desktop(os_type@),
    {
        str_eq(os_type, "windows") || str_eq(os_type, "macos") || str_eq(os_type, "linux")
    }
}

/// Assemble the capability record for the given OS identity and architecture.
pub fn get_platform_info(os_type: &str, arch: &str) -> (info: PlatformInfo)
    ensures
        info.os_type@ == os_type@,
        info.arch@ == arch@,
        info.is_desktop == spec_is_desktop(os_type@),
        info.is_mobile == false,
        info.is_web == false,
        info.supports_notifications == spec_is_desktop(os_type@),
        info.supports_file_dialogs == true,
        info.supports_system_theme == spec_is_desktop(os_type@),
{
    PlatformInfo {
        os_type: os_type.to_owned(),
        arch: arch.to_owned(),
        is_desktop: PlatformDetection::is_desktop(os_type),
        is_mobile: PlatformDetection::is_mobile(os_type),
        is_web: false,
        supports_notifications: PlatformDetection::supports_notifications(os_type),
        supports_file_dialogs: true,
        supports_system_theme: PlatformDetection::supports_system_theme(os_type),
    }
}

/// The OS identity is Windows.
pub fn is_windows(os_type: &str) -> (r: bool)
    ensures
        r == (os_type@ == "windows"@),
{
    str_eq(os_type, "windows")
}

/// The OS identity is macOS.
pub fn is_macos(os_type: &str) -> (r: bool)
    ensures
        r == (os_type@ == "macos"@),
{
    str_eq(os_type, "macos")
}

/// The OS identity is Linux.
pub fn is_linux(os_type: &str) -> (r: bool)
    ensures
        r == (os_type@ == "linux"@),
{
    str_eq(os_type, "linux")
}

/// The executable suffix used by the named OS.
pub fn get_executable_extension(os_type: &str) -> (r: &'static str)
    ensures
        r@ == (if os_type@ == "windows"@ {
            ".exe"@
        } else {
            ""@
        }),
{
    if is_windows(os_type) {
        ".exe"
    } else {
        ""
    }
}

/// The search-path separator used by the named OS.
pub fn get_path_separator(os_type: &str) -> (r: &'static str)
    ensures
        r@ == (if os_type@ == "windows"@ {
            ";"@
        } else {
            ":"@
        }),
{
    if is_windows(os_type) {
        ";"
    } else {
        ":"
    }
}

/// The line ending used by the named OS.
pub fn get_line_ending(os_type: &str) -> (r: &'static str)
    ensures
        r@ == (if os_type@ == "windows"@ {
            "\r\n"@
        } else {
            "\n"@
        }),
{
    if is_windows(os_type) {
        "\r\n"
    } else {
        "\n"
    }
}

} // verus!
