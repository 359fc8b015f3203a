//! Names of the host operating system and architecture as runtime
//! distributions spell them.
use vstd::prelude::*;

use crate::error::VersionManagerError;
use crate::text::{concat3, str_eq};

verus! {

/// The distribution name of the operating system `os` (as Rust names it).
pub open spec fn os_name(os: Seq<char>) -> Option<Seq<char>> {
    if os == "macos"@ {
        Some("darwin"@)
    } else if os == "linux"@ {
        Some("linux"@)
    } else if os == "windows"@ {
        Some("win"@)
    } else {
        None
    }
}

/// The distribution name of the architecture `arch` (as Rust names it).
pub open spec fn arch_name(arch: Seq<char>) -> Seq<char> {
    if arch == "x86"@ {
        "x86"@
    } else if arch == "x86_64"@ {
        "x64"@
    } else if arch == "aarch64"@ {
        "arm64"@
    } else if arch == "arm"@ {
        "arm"@
    } else {
        "unknown"@
    }
}

/// The distribution name of `os`, or `None` for an operating system that no
/// runtime distribution is published for.
pub fn os_type(os: &str) -> (r: Option<&'static str>)
    ensures
        match r {
            Some(name) => os_name(os@) == Some(name@),
            None => os_name(os@) is None,
        },
{
    if str_eq(os, "macos") {
        Some("darwin")
    } else if str_eq(os, "linux") {
        Some("linux")
    } else if str_eq(os, "windows") {
        Some("win")
    } else {
        None
    }
}

/// The distribution name of `arch`.
pub fn get_architecture(arch: &str) -> (r: String)
    ensures
        r@ == arch_name(arch@),
{
    if str_eq(arch, "x86") {
        String::from_str("x86")
    } else if str_eq(arch, "x86_64") {
        String::from_str("x64")
    } else if str_eq(arch, "aarch64") {
        String::from_str("arm64")
    } else if str_eq(arch, "arm") {
        String::from_str("arm")
    } else {
        String::from_str("unknown")
    }
}

/// The platform string `<os>-<arch>` of a host.
pub open spec fn host_platform_of(os: Seq<char>, arch: Seq<char>) -> Option<Seq<char>> {
    match os_name(os) {
        Some(name) => Some(name + "-"@ + arch_name(arch)),
        None => None,
    }
}

/// The platform string of the host with operating system `os` and
/// architecture `arch`; an unsupported operating system is an error.
pub fn host_platform(os: &str, arch: &str) -> (r: Result<String, VersionManagerError>)
    ensures
        match r {
            Ok(p) => host_platform_of(os@, arch@) == Some(p@),
            Err(e) => host_platform_of(os@, arch@) is None && e is UnsupportedOs
                && e->UnsupportedOs_0@ == os@,
        },
{
    match os_type(os) {
        Some(name) => {
            let a = get_architecture(arch);
            Ok(concat3(name, "-", a.as_str()))
        },
        None => Err(VersionManagerError::UnsupportedOs(os.to_owned())),
    }
}

} // verus!
