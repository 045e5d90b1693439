//! The host architecture a jar's native library is built for.

use vstd::prelude::*;

use crate::text::str_eq;

verus! {

#[derive(Clone, Copy, Debug, PartialEq, Eq)]
pub enum Arch {
    Unknown,
    Linux32,
    Linux64,
    LinuxArm,
    LinuxArm64,
    Windows32,
    Windows64,
    WindowsArm64,
    Osx32,
    Osx64,
    OsxPpc,
    OsxArm64,
}

/// The architecture of a target with operating system `os` and CPU `arch`
/// (the values of `target_os` and `target_arch`).
pub open spec fn arch_of(os: Seq<char>, arch: Seq<char>) -> Arch {
    if os == "windows"@ && arch == "x86"@ {
        Arch::Windows32
    } else if os == "windows"@ && arch == "x86_64"@ {
        Arch::Windows64
    } else if os == "windows"@ && arch == "aarch64"@ {
        Arch::WindowsArm64
    } else if os == "macos"@ && arch == "x86"@ {
        Arch::Osx32
    } else if os == "macos"@ && arch == "x86_64"@ {
        Arch::Osx64
    } else if os == "macos"@ && arch == "aarch64"@ {
        Arch::OsxArm64
    } else if os == "macos"@ && arch == "powerpc"@ {
        Arch::OsxPpc
    } else if os == "linux"@ && arch == "x86"@ {
        Arch::Linux32
    } else if os == "linux"@ && arch == "x86_64"@ {
        Arch::Linux64
    } else if os == "linux"@ && arch == "arm"@ {
        Arch::LinuxArm
    } else if os == "linux"@ && arch == "aarch64"@ {
        Arch::LinuxArm64
    } else {
        Arch::Unknown
    }
}

/// The directory name of an architecture under `natives/`.
pub open spec fn arch_name(a: Arch) -> Seq<char> {
    match a {
        Arch::Unknown => "unknown"@,
        Arch::Linux32 => "linux_32"@,
        Arch::Linux64 => "linux_64"@,
        Arch::LinuxArm => "linux_arm"@,
        Arch::LinuxArm64 => "linux_arm64"@,
        Arch::Windows32 => "windows_32"@,
        Arch::Windows64 => "windows_64"@,
        Arch::WindowsArm64 => "windows_arm64"@,
        Arch::Osx32 => "osx_32"@,
        Arch::Osx64 => "osx_64"@,
        Arch::OsxPpc => "osx_ppc"@,
        Arch::OsxArm64 => "osx_arm64"@,
    }
}

impl Arch {
    /// The architecture of the target with operating system `os` and CPU
    /// `arch`; the tool asks for the target it was built for.
    pub fn from_target(os: &str, arch: &str) -> (r: Arch)
        ensures
            r == arch_of(os@, arch@),
    {
        let windows = str_eq(os, "windows");
        let macos = str_eq(os, "macos");
        let linux = str_eq(os, "linux");
        if windows && str_eq(arch, "x86") {
            Arch::Windows32
        } else if windows && str_eq(arch, "x86_64") {
            Arch::Windows64
        } else if windows && str_eq(arch, "aarch64") {
            Arch::WindowsArm64
        } else if macos && str_eq(arch, "x86") {
            Arch::Osx32
        } else if macos && str_eq(arch, "x86_64") {
            Arch::Osx64
        } else if macos && str_eq(arch, "aarch64") {
            Arch::OsxArm64
        } else if macos && str_eq(arch, "powerpc") {
            Arch::OsxPpc
        } else if linux && str_eq(arch, "x86") {
            Arch::Linux32
        } else if linux && str_eq(arch, "x86_64") {
            Arch::Linux64
        } else if linux && str_eq(arch, "arm") {
            Arch::LinuxArm
        } else if linux && str_eq(arch, "aarch64") {
            Arch::LinuxArm64
        } else {
            Arch::Unknown
        }
    }

    /// The directory name of this architecture.
    pub fn as_string(&self) -> (r: String)
        ensures
            r@ == arch_name(*self),
    {
        match self {
            Arch::Unknown => "unknown",
            Arch::Linux32 => "linux_32",
            Arch::Linux64 => "linux_64",
            Arch::LinuxArm => "linux_arm",
            Arch::LinuxArm64 => "linux_arm64",
            Arch::Windows32 => "windows_32",
            Arch::Windows64 => "windows_64",
            Arch::WindowsArm64 => "windows_arm64",
            Arch::Osx32 => "osx_32",
            Arch::Osx64 => "osx_64",
            Arch::OsxPpc => "osx_ppc",
            Arch::OsxArm64 => "osx_arm64",
        }.to_owned()
    }
}

} // verus!
