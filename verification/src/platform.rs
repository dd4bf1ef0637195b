//! The platform resolver: maps an operating system, a CPU
//! architecture and a release version to the coordinates of the
//! distribution archive, including the historical fallback to x64
//! builds on platforms whose native builds arrived late.

use vstd::prelude::*;

use crate::errors::FetchError;
use crate::version::NodeVersion;

verus! {

/// An operating system with upstream release archives.
#[derive(Debug, Clone, Copy, PartialEq, Eq, Structural)]
pub enum Os {
    Windows,
    MacOs,
    Linux,
}

/// A CPU architecture with upstream release archives.
#[derive(Debug, Clone, Copy, PartialEq, Eq, Structural)]
pub enum Arch {
    X86,
    X64,
    Arm64,
    Armv7l,
}

/// The (OS, architecture) pairs that upstream builds archives for.
pub open spec fn spec_supported(os: Os, arch: Arch) -> bool {
    match (os, arch) {
        (Os::Windows, Arch::X86) => true,
        (Os::Windows, Arch::X64) => true,
        (Os::Windows, Arch::Arm64) => true,
        (Os::MacOs, Arch::X64) => true,
        (Os::MacOs, Arch::Arm64) => true,
        (Os::Linux, Arch::X64) => true,
        (Os::Linux, Arch::Arm64) => true,
        (Os::Linux, Arch::Armv7l) => true,
        _ => false,
    }
}

/// The OS component of a distro filename.
pub open spec fn spec_os_id(os: Os) -> Seq<char> {
    match os {
        Os::Windows => "win"@,
        Os::MacOs => "darwin"@,
        Os::Linux => "linux"@,
    }
}

/// The architecture component of a distro filename.
pub open spec fn spec_arch_id(arch: Arch) -> Seq<char> {
    match arch {
        Arch::X86 => "x86"@,
        Arch::X64 => "x64"@,
        Arch::Arm64 => "arm64"@,
        Arch::Armv7l => "armv7l"@,
    }
}

/// The extension of a distro archive: zip on Windows, gzipped tar
/// elsewhere.
pub open spec fn spec_extension(os: Os) -> Seq<char> {
    match os {
        Os::Windows => "zip"@,
        _ => "tar.gz"@,
    }
}

/// The first major version with a native arm64 build, for the two
/// platforms whose arm64 builds arrived late.
pub open spec fn spec_native_arm64_threshold(os: Os) -> nat {
    match os {
        Os::MacOs => 16,
        Os::Windows => 20,
        Os::Linux => 0,
    }
}

/// The architecture actually downloaded: arm64 requests below the
/// platform's native-build threshold fall back to x64.
pub open spec fn spec_effective_arch(os: Os, arch: Arch, major: nat) -> Arch {
    if arch == Arch::Arm64 && major < spec_native_arm64_threshold(os) {
        Arch::X64
    } else {
        arch
    }
}

/// The basename of a distro archive:
/// `node-v{version}-{os}-{arch}`, with the arm64 fallback applied.
pub open spec fn spec_archive_basename(os: Os, arch: Arch, v: NodeVersion) -> Seq<char> {
    "node-v"@ + v.spec_text() + "-"@ + spec_os_id(os) + "-"@ + spec_arch_id(
        spec_effective_arch(os, arch, v.major as nat),
    )
}

/// The full filename of a distro archive: the basename plus the
/// OS-appropriate extension.
pub open spec fn spec_archive_filename(os: Os, arch: Arch, v: NodeVersion) -> Seq<char> {
    spec_archive_basename(os, arch, v) + "."@ + spec_extension(os)
}

/// The identifier of an archive in the remote index's `files` array.
pub open spec fn spec_distro_identifier(os: Os, arch: Arch) -> Seq<char> {
    match os {
        Os::Windows => "win-"@ + spec_arch_id(arch) + "-zip"@,
        Os::MacOs => "osx-"@ + spec_arch_id(arch) + "-tar"@,
        Os::Linux => "linux-"@ + spec_arch_id(arch),
    }
}

fn os_id(os: Os) -> (r: String)
    ensures
        r@ == spec_os_id(os),
{
    match os {
        Os::Windows => "win".to_owned(),
        Os::MacOs => "darwin".to_owned(),
        Os::Linux => "linux".to_owned(),
    }
}

fn arch_id(arch: Arch) -> (r: String)
    ensures
        r@ == spec_arch_id(arch),
{
    match arch {
        Arch::X86 => "x86".to_owned(),
        Arch::X64 => "x64".to_owned(),
        Arch::Arm64 => "arm64".to_owned(),
        Arch::Armv7l => "armv7l".to_owned(),
    }
}

fn extension(os: Os) -> (r: String)
    ensures
        r@ == spec_extension(os),
{
    match os {
        Os::Windows => "zip".to_owned(),
        _ => "tar.gz".to_owned(),
    }
}

/// Compares two strings by their characters.
pub fn str_eq(a: &str, b: &str) -> (r: bool)
    ensures
        r == (a@ == b@),
{
    let x: String = a.to_owned();
    let y: String = b.to_owned();
    x == y
}

/// The architecture denoted by an identifier string, if any.
pub open spec fn spec_arch_from_id(s: Seq<char>) -> Option<Arch> {
    if s == "x86"@ {
        Some(Arch::X86)
    } else if s == "x64"@ {
        Some(Arch::X64)
    } else if s == "arm64"@ {
        Some(Arch::Arm64)
    } else if s == "armv7l"@ {
        Some(Arch::Armv7l)
    } else {
        None
    }
}

/// Parses an architecture identifier such as `x64` or `arm64`.
pub fn arch_from_id(s: &str) -> (r: Option<Arch>)
    ensures
        r == spec_arch_from_id(s@),
{
    if str_eq(s, "x86") {
        Some(Arch::X86)
    } else if str_eq(s, "x64") {
        Some(Arch::X64)
    } else if str_eq(s, "arm64") {
        Some(Arch::Arm64)
    } else if str_eq(s, "armv7l") {
        Some(Arch::Armv7l)
    } else {
        None
    }
}

/// The resolved coordinates of one distribution archive.
#[derive(Debug, Clone)]
pub struct DistroCoordinates {
    pub os_id: String,
    pub arch_id: String,
    pub extension: String,
    pub identifier: String,
    pub archive_basename: String,
    pub full_filename: String,
}

/// A release to fetch, named by its version.
#[derive(Debug, Clone, Copy, PartialEq, Eq, Structural)]
pub struct Node {
    pub version: NodeVersion,
}

impl Node {
    pub fn new(version: NodeVersion) -> (r: Self)
        ensures
            r.version == version,
    {
        Node { version }
    }

    /// The basename of the archive for this version on the given
    /// platform: `node-v{version}-{os}-{arch}`, falling back to the
    /// x64 build for arm64 requests below the platform's
    /// native-build threshold.
    pub fn archive_basename(os: Os, arch: Arch, version: &NodeVersion) -> (r: String)
        ensures
            r@ == spec_archive_basename(os, arch, *version),
    {
        proof {
            reveal_strlit("node-v");
            reveal_strlit("-");
        }
        let effective = if arch == Arch::Arm64 && os == Os::MacOs && version.major < 16 {
            Arch::X64
        } else if arch == Arch::Arm64 && os == Os::Windows && version.major < 20 {
            Arch::X64
        } else {
            arch
        };
        let mut s = "node-v".to_owned();
        s.append(version.text().as_str());
        s.append("-");
        s.append(os_id(os).as_str());
        s.append("-");
        s.append(arch_id(effective).as_str());
        proof {
            assert(s@ =~= spec_archive_basename(os, arch, *version));
        }
        s
    }

    /// The basename and the full filename of the archive for this
    /// version on the given platform.
    pub fn archive_filename(os: Os, arch: Arch, version: &NodeVersion) -> (r: (String, String))
        ensures
            r.0@ == spec_archive_basename(os, arch, *version),
            r.1@ == spec_archive_filename(os, arch, *version),
    {
        proof {
            reveal_strlit(".");
        }
        let name = Node::archive_basename(os, arch, version);
        let mut full = name.clone();
        full.append(".");
        full.append(extension(os).as_str());
        proof {
            assert(full@ =~= spec_archive_filename(os, arch, *version));
        }
        (name, full)
    }
}

fn distro_identifier(os: Os, arch: Arch) -> (r: String)
    ensures
        r@ == spec_distro_identifier(os, arch),
{
    proof {
        reveal_strlit("win-");
        reveal_strlit("osx-");
        reveal_strlit("linux-");
        reveal_strlit("-zip");
        reveal_strlit("-tar");
    }
    let r = match os {
        Os::Windows => {
            let mut s = "win-".to_owned();
            s.append(arch_id(arch).as_str());
            s.append("-zip");
            s
        },
        Os::MacOs => {
            let mut s = "osx-".to_owned();
            s.append(arch_id(arch).as_str());
            s.append("-tar");
            s
        },
        Os::Linux => {
            let mut s = "linux-".to_owned();
            s.append(arch_id(arch).as_str());
            s
        },
    };
    proof {
        assert(r@ =~= spec_distro_identifier(os, arch));
    }
    r
}

/// Resolves the archive coordinates for a platform and version,
/// rejecting unsupported (OS, architecture) pairs.
pub fn resolve_coordinates(os: Os, arch: Arch, version: &NodeVersion) -> (r: Result<
    DistroCoordinates,
    FetchError,
>)
    ensures
        match r {
            Ok(c) => spec_supported(os, arch) && c.os_id@ == spec_os_id(os) && c.arch_id@
                == spec_arch_id(spec_effective_arch(os, arch, version.major as nat)) && c.extension@
                == spec_extension(os) && c.identifier@ == spec_distro_identifier(
                os,
                spec_effective_arch(os, arch, version.major as nat),
            ) && c.archive_basename@ == spec_archive_basename(os, arch, *version)
                && c.full_filename@ == spec_archive_filename(os, arch, *version),
            Err(e) => e is UnsupportedPlatform && !spec_supported(os, arch),
        },
{
    let supported = match (os, arch) {
        (Os::Windows, Arch::X86) => true,
        (Os::Windows, Arch::X64) => true,
        (Os::Windows, Arch::Arm64) => true,
        (Os::MacOs, Arch::X64) => true,
        (Os::MacOs, Arch::Arm64) => true,
        (Os::Linux, Arch::X64) => true,
        (Os::Linux, Arch::Arm64) => true,
        (Os::Linux, Arch::Armv7l) => true,
        _ => false,
    };
    if !supported {
        return Err(FetchError::UnsupportedPlatform);
    }
    let effective = if arch == Arch::Arm64 && os == Os::MacOs && version.major < 16 {
        Arch::X64
    } else if arch == Arch::Arm64 && os == Os::Windows && version.major < 20 {
        Arch::X64
    } else {
        arch
    };
    let (name, full) = Node::archive_filename(os, arch, version);
    Ok(
        DistroCoordinates {
            os_id: os_id(os),
            arch_id: arch_id(effective),
            extension: extension(os),
            identifier: distro_identifier(os, effective),
            archive_basename: name,
            full_filename: full,
        },
    )
}

} // verus!
