//! Host platforms and the release asset that each of them downloads.
use vstd::prelude::*;
use vstd::string::StringExecFns;
use zed_extension_api as zed;

verus! {

/// Name of the language-server binary, and the prefix of its release assets.
pub const BINARY_NAME: &'static str = "golangci-lint-langserver";

/// An operating system that the editor runs on.
#[derive(Clone, Copy, Debug, PartialEq, Eq, Structural)]
pub enum Os {
    Linux,
    Mac,
    Windows,
}

/// A processor architecture that the editor runs on.
#[derive(Clone, Copy, Debug, PartialEq, Eq, Structural)]
pub enum Arch {
    Aarch64,
    X86,
    X8664,
}

/// The host an asset is chosen for.
#[derive(Clone, Copy, Debug, PartialEq, Eq, Structural)]
pub struct PlatformKey {
    pub os: Os,
    pub arch: Arch,
}

/// How a release asset is packed.
#[derive(Clone, Copy, Debug, PartialEq, Eq, Structural)]
pub enum ArchiveKind {
    Zip,
    GzipTar,
}

pub open spec fn os_label_spec(os: Os) -> Seq<char> {
    match os {
        Os::Linux => seq!['L', 'i', 'n', 'u', 'x'],
        Os::Mac => seq!['D', 'a', 'r', 'w', 'i', 'n'],
        Os::Windows => seq!['W', 'i', 'n', 'd', 'o', 'w', 's'],
    }
}

pub open spec fn arch_label_spec(arch: Arch) -> Seq<char> {
    match arch {
        Arch::Aarch64 => seq!['a', 'r', 'm', '6', '4'],
        Arch::X86 => seq!['i', '3', '8', '6'],
        Arch::X8664 => seq!['x', '8', '6', '_', '6', '4'],
    }
}

pub open spec fn extension_spec(os: Os) -> Seq<char> {
    match os {
        Os::Windows => seq!['z', 'i', 'p'],
        _ => seq!['t', 'a', 'r', '.', 'g', 'z'],
    }
}

pub open spec fn archive_kind_spec(os: Os) -> ArchiveKind {
    match os {
        Os::Windows => ArchiveKind::Zip,
        _ => ArchiveKind::GzipTar,
    }
}

pub open spec fn binary_name_spec() -> Seq<char> {
    BINARY_NAME@
}

/// `<binary>_<OsLabel>_<ArchLabel>.<ext>`
pub open spec fn asset_name_spec(key: PlatformKey) -> Seq<char> {
    binary_name_spec() + seq!['_'] + os_label_spec(key.os) + seq!['_'] + arch_label_spec(key.arch)
        + seq!['.'] + extension_spec(key.os)
}

/// The label that release assets use for an operating system.
pub fn os_label(os: Os) -> (r: &'static str)
    ensures
        r@ == os_label_spec(os),
{
    match os {
        Os::Linux => {
            proof { reveal_strlit("Linux"); }
            "Linux"
        },
        Os::Mac => {
            proof { reveal_strlit("Darwin"); }
            "Darwin"
        },
        Os::Windows => {
            proof { reveal_strlit("Windows"); }
            "Windows"
        },
    }
}

/// The label that release assets use for an architecture.
pub fn arch_label(arch: Arch) -> (r: &'static str)
    ensures
        r@ == arch_label_spec(arch),
{
    match arch {
        Arch::Aarch64 => {
            proof { reveal_strlit("arm64"); }
            "arm64"
        },
        Arch::X86 => {
            proof { reveal_strlit("i386"); }
            "i386"
        },
        Arch::X8664 => {
            proof { reveal_strlit("x86_64"); }
            "x86_64"
        },
    }
}

/// The file extension of the asset for an operating system.
pub fn extension(os: Os) -> (r: &'static str)
    ensures
        r@ == extension_spec(os),
{
    match os {
        Os::Windows => {
            proof { reveal_strlit("zip"); }
            "zip"
        },
        _ => {
            proof { reveal_strlit("tar.gz"); }
            "tar.gz"
        },
    }
}

/// How the asset for an operating system is unpacked.
pub fn archive_kind(os: Os) -> (r: ArchiveKind)
    ensures
        r == archive_kind_spec(os),
{
    match os {
        Os::Windows => ArchiveKind::Zip,
        _ => ArchiveKind::GzipTar,
    }
}

/// Relies on zed_extension_api::current_platform: the host's operating system
/// and architecture, each variant mapped to the one of the same name here.
/// Which host that is depends on the machine, so nothing is promised of it.
#[verifier::external_body]
fn host_platform() -> (r: PlatformKey) {
    let (os, arch) = zed::current_platform();
    let os = match os {
        zed::Os::Linux => Os::Linux,
        zed::Os::Mac => Os::Mac,
        zed::Os::Windows => Os::Windows,
    };
    let arch = match arch {
        zed::Architecture::Aarch64 => Arch::Aarch64,
        zed::Architecture::X86 => Arch::X86,
        zed::Architecture::X8664 => Arch::X8664,
    };
    PlatformKey { os, arch }
}

impl PlatformKey {
    /// The host that the editor runs on.
    pub fn current() -> (r: PlatformKey) {
        host_platform()
    }

    /// The name of the release asset built for this host.
    pub fn asset_name(&self) -> (r: String)
        ensures
            r@ == asset_name_spec(*self),
    {
        let mut name = String::from_str(BINARY_NAME);
        name.append("_");
        name.append(os_label(self.os));
        name.append("_");
        name.append(arch_label(self.arch));
        name.append(".");
        name.append(extension(self.os));
        proof {
            reveal_strlit("_");
            reveal_strlit(".");
        }
        name
    }
}

} // verus!
