//! The platforms for which a runtime distribution is known.

use vstd::prelude::*;
use crate::error::AdapterError;
use crate::text::same_text;

verus! {

/// Where the Java runtime for Apple-silicon Macs is downloaded from.
pub const JRE_21_MACOS_AARCH64: &'static str =
    "https://corretto.aws/downloads/latest/amazon-corretto-21-aarch64-macos-jdk.tar.gz";

/// Where the Java runtime for Intel Macs is downloaded from.
pub const JRE_21_MACOS_X64: &'static str =
    "https://corretto.aws/downloads/latest/amazon-corretto-21-x64-macos-jdk.tar.gz";

/// A processor architecture, as far as the installer tells them apart.
#[derive(Clone, Copy, Debug, PartialEq, Eq, Structural)]
pub enum Arch {
    Aarch64,
    X86_64,
    /// Any architecture for which no runtime is known.
    Other,
}

/// An operating system, as far as the installer tells them apart.
#[derive(Clone, Copy, Debug, PartialEq, Eq, Structural)]
pub enum Os {
    MacOs,
    /// Any operating system for which no runtime is known.
    Other,
}

/// The pair of architecture and operating system that selects the runtime
/// download and the server's configuration directory.
#[derive(Clone, Copy, Debug, PartialEq, Eq, Structural)]
pub struct PlatformKey {
    pub arch: Arch,
    pub os: Os,
}

/// The architecture that the host calls `name`.
pub open spec fn arch_named(name: Seq<char>) -> Arch {
    if name == "aarch64"@ {
        Arch::Aarch64
    } else if name == "x86_64"@ {
        Arch::X86_64
    } else {
        Arch::Other
    }
}

/// The operating system that the host calls `name`.
pub open spec fn os_named(name: Seq<char>) -> Os {
    if name == "macos"@ {
        Os::MacOs
    } else {
        Os::Other
    }
}

/// The runtime download for a platform; `None` where the platform is not
/// supported.
pub open spec fn runtime_url_of(platform: PlatformKey) -> Option<Seq<char>> {
    match (platform.os, platform.arch) {
        (Os::MacOs, Arch::Aarch64) => Some(JRE_21_MACOS_AARCH64@),
        (Os::MacOs, Arch::X86_64) => Some(JRE_21_MACOS_X64@),
        _ => None,
    }
}

impl PlatformKey {
    /// A platform is supported when a runtime distribution is known for it.
    pub open spec fn is_supported(&self) -> bool {
        self.os == Os::MacOs && (self.arch == Arch::Aarch64 || self.arch == Arch::X86_64)
    }

    pub fn new(arch: Arch, os: Os) -> (platform: PlatformKey)
        ensures
            platform.arch == arch,
            platform.os == os,
    {
        PlatformKey { arch, os }
    }

    /// The platform that the host describes by the names of its
    /// architecture and operating system, as `std::env::consts` spells them.
    pub fn from_host(arch: &str, os: &str) -> (platform: PlatformKey)
        ensures
            platform.arch == arch_named(arch@),
            platform.os == os_named(os@),
    {
        let arch = if same_text(arch, "aarch64") {
            Arch::Aarch64
        } else if same_text(arch, "x86_64") {
            Arch::X86_64
        } else {
            Arch::Other
        };
        let os = if same_text(os, "macos") {
            Os::MacOs
        } else {
            Os::Other
        };
        PlatformKey { arch, os }
    }

    /// Whether a runtime distribution is known for this platform.
    pub fn supported(&self) -> (r: bool)
        ensures
            r == self.is_supported(),
    {
        match (self.os, self.arch) {
            (Os::MacOs, Arch::Aarch64) => true,
            (Os::MacOs, Arch::X86_64) => true,
            _ => false,
        }
    }

    /// The address of the runtime archive for this platform. The runtime is
    /// not versioned: the address always serves the latest build.
    pub fn runtime_url(&self) -> (r: Result<&'static str, AdapterError>)
        ensures
            match r {
                Ok(url) => runtime_url_of(*self) == Some(url@),
                Err(e) => e == AdapterError::UnsupportedPlatform && !self.is_supported(),
            },
            self.is_supported() <==> r is Ok,
    {
        match (self.os, self.arch) {
            (Os::MacOs, Arch::Aarch64) => Ok(JRE_21_MACOS_AARCH64),
            (Os::MacOs, Arch::X86_64) => Ok(JRE_21_MACOS_X64),
            _ => Err(AdapterError::UnsupportedPlatform),
        }
    }
}

} // verus!
