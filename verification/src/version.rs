//! Release versions: the plain `major.minor.patch` model, its
//! canonical rendering, and the trusted bridge to the semver parser.

use vstd::prelude::*;

use crate::errors::FetchError;
use crate::text::{push_dec, spec_dec};

verus! {

/// A plain Node.js release version.
#[derive(Debug, Clone, Copy, PartialEq, Eq, Structural)]
pub struct NodeVersion {
    pub major: u64,
    pub minor: u64,
    pub patch: u64,
}

/// The canonical `major.minor.patch` rendering of a version triple.
pub open spec fn spec_version_text(major: nat, minor: nat, patch: nat) -> Seq<char> {
    spec_dec(major) + seq!['.'] + spec_dec(minor) + seq!['.'] + spec_dec(patch)
}

impl NodeVersion {
    /// The canonical rendering of this version.
    pub open spec fn spec_text(self) -> Seq<char> {
        spec_version_text(self.major as nat, self.minor as nat, self.patch as nat)
    }

    /// Renders the version as `major.minor.patch`.
    pub fn text(&self) -> (r: String)
        ensures
            r@ == self.spec_text(),
    {
        proof {
            reveal_strlit(".");
        }
        let mut s = String::new();
        push_dec(&mut s, self.major);
        s.append(".");
        push_dec(&mut s, self.minor);
        s.append(".");
        push_dec(&mut s, self.patch);
        proof {
            assert(s@ =~= self.spec_text());
        }
        s
    }
}

/// The largest numeric component the semver parser accepts.  (The
/// parser's bound, billed as JavaScript's largest safe integer, is
/// in fact one decimal digit short of it.)
pub open spec fn spec_max_semver_component() -> nat {
    900719925474099
}

/// The version triple that the semver parser reads out of a string,
/// or `None` when it rejects the string.
pub uninterp spec fn semver_of(s: Seq<char>) -> Option<(u64, u64, u64)>;

/// Relies on `node_semver::Version::parse`: the result depends on the
/// input alone, and a canonical `major.minor.patch` string whose
/// components stay within the parser's numeric bound yields exactly
/// those components.  Only the numeric triple is kept of whatever
/// else the parsed version carries.
#[verifier::external_body]
fn parse_semver(s: &str) -> (r: Option<NodeVersion>)
    ensures
        match r {
            Some(v) => semver_of(s@) == Some((v.major, v.minor, v.patch)),
            None => semver_of(s@) is None,
        },
        forall|major: nat, minor: nat, patch: nat|
            major <= spec_max_semver_component() && minor <= spec_max_semver_component()
                && patch <= spec_max_semver_component()
                && s@ == #[trigger] spec_version_text(major, minor, patch) ==> r == Some(
                NodeVersion { major: major as u64, minor: minor as u64, patch: patch as u64 },
            ),
{
    match node_semver::Version::parse(s) {
        Ok(v) => Some(NodeVersion { major: v.major, minor: v.minor, patch: v.patch }),
        Err(_) => None,
    }
}

/// Parses a version string, rejecting whatever the semver grammar
/// rejects.
pub fn parse_version(s: &str) -> (r: Result<NodeVersion, FetchError>)
    ensures
        match r {
            Ok(v) => semver_of(s@) == Some((v.major, v.minor, v.patch)),
            Err(e) => e is InvalidVersion && semver_of(s@) is None,
        },
        forall|major: nat, minor: nat, patch: nat|
            major <= spec_max_semver_component() && minor <= spec_max_semver_component()
                && patch <= spec_max_semver_component()
                && s@ == #[trigger] spec_version_text(major, minor, patch) ==> r == Ok::<
                NodeVersion,
                FetchError,
            >(NodeVersion { major: major as u64, minor: minor as u64, patch: patch as u64 }),
{
    match parse_semver(s) {
        Some(v) => Ok(v),
        None => Err(FetchError::InvalidVersion),
    }
}

} // verus!
