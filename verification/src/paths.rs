//! The application's file layout under the user's home directory.
//! The home directory itself comes from the environment, so the
//! caller passes it in; everything below it is fixed.

use vstd::prelude::*;

use crate::text::join_path;

verus! {

/// The data directory: `{home}/.nvmd`.
pub open spec fn spec_nvmd_home(home: Seq<char>) -> Seq<char> {
    home + seq!['/'] + ".nvmd"@
}

/// The data directory under the given home directory.
pub fn nvmd_home_dir(home_dir: &str) -> (r: String)
    ensures
        r@ == spec_nvmd_home(home_dir@),
{
    join_path(home_dir, ".nvmd")
}

/// The settings file: `{home}/.nvmd/setting.json`.
pub fn settings_path(home_dir: &str) -> (r: String)
    ensures
        r@ == spec_nvmd_home(home_dir@) + seq!['/'] + "setting.json"@,
{
    let base = nvmd_home_dir(home_dir);
    join_path(base.as_str(), "setting.json")
}

/// The project list file: `{home}/.nvmd/projects.json`.
pub fn projects_path(home_dir: &str) -> (r: String)
    ensures
        r@ == spec_nvmd_home(home_dir@) + seq!['/'] + "projects.json"@,
{
    let base = nvmd_home_dir(home_dir);
    join_path(base.as_str(), "projects.json")
}

/// The group list file: `{home}/.nvmd/groups.json`.
pub fn groups_path(home_dir: &str) -> (r: String)
    ensures
        r@ == spec_nvmd_home(home_dir@) + seq!['/'] + "groups.json"@,
{
    let base = nvmd_home_dir(home_dir);
    join_path(base.as_str(), "groups.json")
}

/// The migration marker file: `{home}/.nvmd/migration`.
pub fn migration_path(home_dir: &str) -> (r: String)
    ensures
        r@ == spec_nvmd_home(home_dir@) + seq!['/'] + "migration"@,
{
    let base = nvmd_home_dir(home_dir);
    join_path(base.as_str(), "migration")
}

/// The shim directory: `{home}/.nvmd/bin`.
pub fn bin_path(home_dir: &str) -> (r: String)
    ensures
        r@ == spec_nvmd_home(home_dir@) + seq!['/'] + "bin"@,
{
    let base = nvmd_home_dir(home_dir);
    join_path(base.as_str(), "bin")
}

/// The default-version file: `{home}/.nvmd/default`.
pub fn default_version_path(home_dir: &str) -> (r: String)
    ensures
        r@ == spec_nvmd_home(home_dir@) + seq!['/'] + "default"@,
{
    let base = nvmd_home_dir(home_dir);
    join_path(base.as_str(), "default")
}

/// The cached version list: `{home}/.nvmd/versions.json`.
pub fn version_list_path(home_dir: &str) -> (r: String)
    ensures
        r@ == spec_nvmd_home(home_dir@) + seq!['/'] + "versions.json"@,
{
    let base = nvmd_home_dir(home_dir);
    join_path(base.as_str(), "versions.json")
}

/// Where versions are installed by default:
/// `{home}/.nvmd/versions`.
pub fn default_install_dir(home_dir: &str) -> (r: String)
    ensures
        r@ == spec_nvmd_home(home_dir@) + seq!['/'] + "versions"@,
{
    let base = nvmd_home_dir(home_dir);
    join_path(base.as_str(), "versions")
}

} // verus!
