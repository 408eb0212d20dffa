//! The operating system family and what follows from it.

use vstd::prelude::*;
use crate::text::same_text;

verus! {

/// The desktop operating systems the launcher runs on.
#[derive(Debug, Clone, Copy, PartialEq, Eq, Structural)]
#[allow(clippy::enum_variant_names)]
pub enum OS {
    Windows,
    Linux,
    MacOS,
}

/// An operating system version, reduced to what the launcher compares.
#[derive(Debug, Clone, Copy, PartialEq, Eq, Structural)]
pub enum OsVersion {
    /// A `major.minor.patch` version.
    Semantic { major: u64, minor: u64, patch: u64 },
    /// Anything that is not three numbers: a rolling release, a code name,
    /// or no answer at all.
    Unrecognized,
}

/// The family that a target name such as `"linux"` stands for, if it is one
/// of the three the launcher supports.
pub open spec fn os_of_target(target_os: Seq<char>) -> Option<OS> {
    if target_os == "windows"@ {
        Some(OS::Windows)
    } else if target_os == "linux"@ {
        Some(OS::Linux)
    } else if target_os == "macos"@ {
        Some(OS::MacOS)
    } else {
        None
    }
}

/// Gets the operating system family from the target's name, as the compiler
/// spells it (`"windows"`, `"linux"`, `"macos"`). Any other name is not a
/// supported desktop and gives `None`.
pub fn get_os(target_os: &str) -> (os: Option<OS>)
    ensures
        os == os_of_target(target_os@),
{
    if same_text(target_os, "windows") {
        Some(OS::Windows)
    } else if same_text(target_os, "linux") {
        Some(OS::Linux)
    } else if same_text(target_os, "macos") {
        Some(OS::MacOS)
    } else {
        None
    }
}

/// Whether a version is recent enough for mouse-over effects to be safe on
/// macOS: a semantic version whose major is at least 12 and whose minor is
/// at least 3.
pub open spec fn mouseover_is_safe(version: OsVersion) -> bool {
    match version {
        OsVersion::Semantic { major, minor, patch } => major >= 12 && minor >= 3,
        OsVersion::Unrecognized => false,
    }
}

/// Whether the UI must switch its mouse-over effects off.
///
/// Old macOS releases crash on them, so on macOS the answer is `true` unless
/// the version is known to be recent enough; a version that cannot be read
/// as three numbers counts as old. No other system has the problem.
pub fn should_disable_mouseover(os: OS, version: OsVersion) -> (disable: bool)
    ensures
        disable == (os == OS::MacOS && !mouseover_is_safe(version)),
        os != OS::MacOS ==> !disable,
        os == OS::MacOS ==> (!disable <==> (version matches OsVersion::Semantic {
            major,
            minor,
            ..
        } && major >= 12 && minor >= 3)),
{
    match os {
        OS::MacOS => {
            if let OsVersion::Semantic { major, minor, patch: _ } = version {
                if major >= 12 && minor >= 3 {
                    return false;
                }
            }
            true
        },
        _ => false,
    }
}

} // verus!
