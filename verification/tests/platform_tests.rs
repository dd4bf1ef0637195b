//! The platform resolver: filename templates, the arm64 fallback
//! rules, and the coordinates of one archive.

use nvmd::errors::FetchError;
use nvmd::platform::{arch_from_id, resolve_coordinates, Arch, Node, Os};
use nvmd::version::{parse_version, NodeVersion};

#[test]
fn test_node_archive_basename() {
    let v = parse_version("20.2.3").unwrap();
    assert_eq!(
        Node::archive_basename(Os::Linux, Arch::X64, &v),
        "node-v20.2.3-linux-x64"
    );
    assert_eq!(
        Node::archive_basename(Os::MacOs, Arch::X64, &v),
        "node-v20.2.3-darwin-x64"
    );
    assert_eq!(
        Node::archive_basename(Os::Windows, Arch::X64, &v),
        "node-v20.2.3-win-x64"
    );
    assert_eq!(
        Node::archive_basename(Os::MacOs, Arch::Arm64, &v),
        "node-v20.2.3-darwin-arm64"
    );
}

#[test]
fn test_node_archive_filename() {
    let v = parse_version("20.2.3").unwrap();
    assert_eq!(
        Node::archive_filename(Os::Linux, Arch::X64, &v),
        (
            "node-v20.2.3-linux-x64".to_string(),
            "node-v20.2.3-linux-x64.tar.gz".to_string()
        )
    );
    assert_eq!(
        Node::archive_filename(Os::Windows, Arch::X64, &v),
        (
            "node-v20.2.3-win-x64".to_string(),
            "node-v20.2.3-win-x64.zip".to_string()
        )
    );
}

#[test]
fn test_fallback_node_archive_basename() {
    let v = parse_version("15.2.3").unwrap();
    assert_eq!(
        Node::archive_basename(Os::MacOs, Arch::Arm64, &v),
        "node-v15.2.3-darwin-x64"
    );
}

#[test]
fn node_test_fallback_node_archive_basename() {
    let v = parse_version("19.2.3").unwrap();
    assert_eq!(
        Node::archive_basename(Os::Windows, Arch::Arm64, &v),
        "node-v19.2.3-win-x64"
    );
}

#[test]
fn test_fallback_node_archive_filename() {
    let v = parse_version("15.2.3").unwrap();
    assert_eq!(
        Node::archive_filename(Os::MacOs, Arch::Arm64, &v),
        (
            "node-v15.2.3-darwin-x64".to_string(),
            "node-v15.2.3-darwin-x64.tar.gz".to_string()
        )
    );
}

#[test]
fn node_test_fallback_node_archive_filename() {
    let v = parse_version("19.2.3").unwrap();
    assert_eq!(
        Node::archive_filename(Os::Windows, Arch::Arm64, &v),
        (
            "node-v19.2.3-win-x64".to_string(),
            "node-v19.2.3-win-x64.zip".to_string()
        )
    );
}

#[test]
fn fallback_ends_at_native_threshold() {
    let mac = parse_version("16.0.0").unwrap();
    assert_eq!(
        Node::archive_basename(Os::MacOs, Arch::Arm64, &mac),
        "node-v16.0.0-darwin-arm64"
    );
    let win = parse_version("20.0.0").unwrap();
    assert_eq!(
        Node::archive_basename(Os::Windows, Arch::Arm64, &win),
        "node-v20.0.0-win-arm64"
    );
}

#[test]
fn resolves_full_coordinates() {
    let v = parse_version("20.2.3").unwrap();
    let c = resolve_coordinates(Os::Linux, Arch::X64, &v).unwrap();
    assert_eq!(c.os_id, "linux");
    assert_eq!(c.arch_id, "x64");
    assert_eq!(c.extension, "tar.gz");
    assert_eq!(c.identifier, "linux-x64");
    assert_eq!(c.archive_basename, "node-v20.2.3-linux-x64");
    assert_eq!(c.full_filename, "node-v20.2.3-linux-x64.tar.gz");

    let c = resolve_coordinates(Os::MacOs, Arch::Arm64, &v).unwrap();
    assert_eq!(c.identifier, "osx-arm64-tar");

    let old = parse_version("15.0.0").unwrap();
    let c = resolve_coordinates(Os::MacOs, Arch::Arm64, &old).unwrap();
    assert_eq!(c.arch_id, "x64");
    assert_eq!(c.identifier, "osx-x64-tar");
}

#[test]
fn unsupported_platform_is_rejected() {
    let v = NodeVersion {
        major: 20,
        minor: 0,
        patch: 0,
    };
    assert!(matches!(
        resolve_coordinates(Os::MacOs, Arch::X86, &v),
        Err(FetchError::UnsupportedPlatform)
    ));
    assert!(matches!(
        resolve_coordinates(Os::Windows, Arch::Armv7l, &v),
        Err(FetchError::UnsupportedPlatform)
    ));
}

#[test]
fn arch_identifiers_parse() {
    assert_eq!(arch_from_id("x86"), Some(Arch::X86));
    assert_eq!(arch_from_id("x64"), Some(Arch::X64));
    assert_eq!(arch_from_id("arm64"), Some(Arch::Arm64));
    assert_eq!(arch_from_id("armv7l"), Some(Arch::Armv7l));
    assert_eq!(arch_from_id("sparc"), None);
}
