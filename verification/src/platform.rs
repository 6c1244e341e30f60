//! The platform identifiers of the driver manifest.

use crate::error::{text_or_error_model, ErrorModel, WebDriverError};
use crate::text::text_eq;
use vstd::prelude::*;

verus! {

/// The manifest's identifier for an operating system and a CPU
/// architecture, each named as the Rust toolchain names them; `None` where
/// the manifest has no builds for the pair.
pub open spec fn platform_of(os: Seq<char>, arch: Seq<char>) -> Option<Seq<char>> {
    if os == "windows"@ && arch == "x86_64"@ {
        Some("win64"@)
    } else if os == "windows"@ && arch == "x86"@ {
        Some("win32"@)
    } else if os == "macos"@ && arch == "x86_64"@ {
        Some("mac-x64"@)
    } else if os == "macos"@ && arch == "aarch64"@ {
        Some("mac-arm64"@)
    } else if os == "linux"@ && arch == "x86_64"@ {
        Some("linux64"@)
    } else {
        None
    }
}

/// The text that names an unsupported pair in an error: `os`, a hyphen,
/// `arch`.
pub open spec fn platform_label(os: Seq<char>, arch: Seq<char>) -> Seq<char> {
    os + "-"@ + arch
}

/// What [`platform_identifier`] returns for a pair.
pub open spec fn platform_result(os: Seq<char>, arch: Seq<char>) -> Result<Seq<char>, ErrorModel> {
    match platform_of(os, arch) {
        Some(platform) => Ok(platform),
        None => Err(ErrorModel::UnsupportedPlatform(platform_label(os, arch))),
    }
}

/// Maps an operating system and a CPU architecture to the manifest's
/// platform identifier, or fails with `UnsupportedPlatform`.
pub fn platform_identifier(os: &str, arch: &str) -> (r: Result<String, WebDriverError>)
    ensures
        text_or_error_model(r) == platform_result(os@, arch@),
{
    let x86_64 = text_eq(arch, "x86_64");
    if text_eq(os, "windows") && x86_64 {
        Ok("win64".to_string())
    } else if text_eq(os, "windows") && text_eq(arch, "x86") {
        Ok("win32".to_string())
    } else if text_eq(os, "macos") && x86_64 {
        Ok("mac-x64".to_string())
    } else if text_eq(os, "macos") && text_eq(arch, "aarch64") {
        Ok("mac-arm64".to_string())
    } else if text_eq(os, "linux") && x86_64 {
        Ok("linux64".to_string())
    } else {
        Err(WebDriverError::UnsupportedPlatform(os.to_string().concat("-").concat(arch)))
    }
}

/// The operating systems on which a browser can be located.
#[derive(Debug, Clone, Copy, PartialEq, Eq)]
pub enum HostOs {
    Windows,
    MacOs,
    Linux,
}

/// The operating system that `os` names, as the Rust toolchain names it.
pub open spec fn host_os_of(os: Seq<char>) -> Option<HostOs> {
    if os == "windows"@ {
        Some(HostOs::Windows)
    } else if os == "macos"@ {
        Some(HostOs::MacOs)
    } else if os == "linux"@ {
        Some(HostOs::Linux)
    } else {
        None
    }
}

/// The operating system that `os` names, if it is one on which a browser
/// can be located.
pub fn host_os(os: &str) -> (r: Option<HostOs>)
    ensures
        r == host_os_of(os@),
{
    if text_eq(os, "windows") {
        Some(HostOs::Windows)
    } else if text_eq(os, "macos") {
        Some(HostOs::MacOs)
    } else if text_eq(os, "linux") {
        Some(HostOs::Linux)
    } else {
        None
    }
}

} // verus!
