use golangci_lint_ext::platform::{
    arch_label, archive_kind, extension, os_label, Arch, ArchiveKind, Os, PlatformKey, BINARY_NAME,
};

fn name_for(os: Os, arch: Arch) -> String {
    PlatformKey { os, arch }.asset_name()
}

#[test]
fn asset_name_linux_x86_64() {
    assert_eq!(name_for(Os::Linux, Arch::X8664), "golangci-lint-langserver_Linux_x86_64.tar.gz");
}

#[test]
fn asset_name_linux_arm64() {
    assert_eq!(name_for(Os::Linux, Arch::Aarch64), "golangci-lint-langserver_Linux_arm64.tar.gz");
}

#[test]
fn asset_name_linux_i386() {
    assert_eq!(name_for(Os::Linux, Arch::X86), "golangci-lint-langserver_Linux_i386.tar.gz");
}

#[test]
fn asset_name_mac_arm64() {
    assert_eq!(name_for(Os::Mac, Arch::Aarch64), "golangci-lint-langserver_Darwin_arm64.tar.gz");
}

#[test]
fn asset_name_mac_x86_64() {
    assert_eq!(name_for(Os::Mac, Arch::X8664), "golangci-lint-langserver_Darwin_x86_64.tar.gz");
}

#[test]
fn asset_name_windows_x86_64() {
    assert_eq!(name_for(Os::Windows, Arch::X8664), "golangci-lint-langserver_Windows_x86_64.zip");
}

#[test]
fn asset_name_windows_i386() {
    assert_eq!(name_for(Os::Windows, Arch::X86), "golangci-lint-langserver_Windows_i386.zip");
}

#[test]
fn asset_name_windows_arm64() {
    assert_eq!(name_for(Os::Windows, Arch::Aarch64), "golangci-lint-langserver_Windows_arm64.zip");
}

#[test]
fn labels_cover_every_variant() {
    assert_eq!(os_label(Os::Linux), "Linux");
    assert_eq!(os_label(Os::Mac), "Darwin");
    assert_eq!(os_label(Os::Windows), "Windows");
    assert_eq!(arch_label(Arch::Aarch64), "arm64");
    assert_eq!(arch_label(Arch::X86), "i386");
    assert_eq!(arch_label(Arch::X8664), "x86_64");
}

#[test]
fn windows_alone_uses_zip() {
    assert_eq!(extension(Os::Windows), "zip");
    assert_eq!(extension(Os::Linux), "tar.gz");
    assert_eq!(extension(Os::Mac), "tar.gz");
    assert_eq!(archive_kind(Os::Windows), ArchiveKind::Zip);
    assert_eq!(archive_kind(Os::Linux), ArchiveKind::GzipTar);
    assert_eq!(archive_kind(Os::Mac), ArchiveKind::GzipTar);
}

#[test]
fn binary_name_is_the_asset_prefix() {
    assert_eq!(BINARY_NAME, "golangci-lint-langserver");
    assert!(name_for(Os::Mac, Arch::X86).starts_with(BINARY_NAME));
}
