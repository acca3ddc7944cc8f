//! The app information panel: what it says of the system it runs on.

use crate::helpers::same_text;
use vstd::prelude::*;

verus! {

/// The app info GUI panel in the main window
#[derive(Debug)]
pub struct AppInfoGui {}

/// The name shown for an operating system, from the name Rust gives it
/// (`std::env::consts::OS`)
pub open spec fn os_display_name(os: Seq<char>) -> Seq<char> {
    if os == "windows"@ {
        "Windows"@
    } else if os == "macos"@ {
        "macOS"@
    } else if os == "linux"@ {
        "Linux"@
    } else {
        os
    }
}

/// The name shown for a computer architecture, from the name Rust gives it
/// (`std::env::consts::ARCH`)
pub open spec fn arch_display_name(arch: Seq<char>) -> Seq<char> {
    if arch == "aarch64"@ {
        "arm64"@
    } else {
        arch
    }
}

impl AppInfoGui {
    /// Create a new app info GUI panel
    pub fn new() -> (gui: Self) {
        AppInfoGui {  }
    }

    /// The name shown for the operating system named `os` by Rust
    pub fn operating_system_name(os: &str) -> (name: String)
        ensures
            name@ == os_display_name(os@),
    {
        if same_text(os, "windows") {
            String::from_str("Windows")
        } else if same_text(os, "macos") {
            String::from_str("macOS")
        } else if same_text(os, "linux") {
            String::from_str("Linux")
        } else {
            String::from_str(os)
        }
    }

    /// The name shown for the architecture named `arch` by Rust
    pub fn architecture_name(arch: &str) -> (name: String)
        ensures
            name@ == arch_display_name(arch@),
    {
        if same_text(arch, "aarch64") {
            String::from_str("arm64")
        } else {
            String::from_str(arch)
        }
    }
}

} // verus!
