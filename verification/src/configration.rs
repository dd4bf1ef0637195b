//! Configuration transfer: what an export file holds, and how an
//! imported file maps project versions through group names.  File
//! dialogs, JSON and disk writes are the application's work.

use vstd::prelude::*;

use crate::groups::{lemma_first_named, spec_first_named, Group, GroupView};
use crate::projects::{Project, ProjectView};
use crate::platform::str_eq;
use crate::settings::ISettings;
use crate::strlist::clone_opt_string;

verus! {

/// What the caller asks to export.
#[derive(Debug, Default)]
pub struct ConfigrationExport {
    /// The theme color to carry along.
    pub color: Option<String>,
    /// Whether to export the settings.
    pub setting: Option<bool>,
    /// The mirror list to carry along.
    pub mirrors: Option<String>,
    /// Whether to export the projects and groups.
    pub projects: Option<bool>,
}

/// The payload of an export file.
#[derive(Debug, Default)]
pub struct ConfigrationData {
    pub color: Option<String>,
    pub setting: Option<ISettings>,
    pub mirrors: Option<String>,
    pub projects: Option<Vec<Project>>,
    pub groups: Option<Vec<Group>>,
}

/// What an import hands back to the caller.
#[derive(Debug, Default)]
pub struct ConfigrationImport {
    pub color: Option<String>,
    pub setting: Option<ISettings>,
    pub mirrors: Option<String>,
}

/// Assembles the export payload: the color always travels, the
/// settings and mirrors only when asked, the projects and groups
/// only when asked.
pub fn export_payload(
    configration: ConfigrationExport,
    setting: ISettings,
    projects: Option<Vec<Project>>,
    groups: Option<Vec<Group>>,
) -> (r: ConfigrationData)
    ensures
        r.color == configration.color,
        configration.setting == Some(true) ==> r.setting == Some(setting) && r.mirrors
            == configration.mirrors,
        configration.setting != Some(true) ==> r.setting is None && r.mirrors is None,
        configration.projects == Some(true) ==> r.projects == projects && r.groups == groups,
        configration.projects != Some(true) ==> r.projects is None && r.groups is None,
{
    let mut out = ConfigrationData {
        color: configration.color,
        setting: None,
        mirrors: None,
        projects: None,
        groups: None,
    };
    if matches!(configration.setting, Some(true)) {
        out.setting = Some(setting);
        out.mirrors = configration.mirrors;
    }
    if matches!(configration.projects, Some(true)) {
        out.projects = projects;
        out.groups = groups;
    }
    out
}

/// The version an imported project should sync to: its own version,
/// except that a version naming a group follows that group's
/// version.  A project without a version syncs to nothing.
pub open spec fn spec_sync_version(p: ProjectView, groups: Seq<GroupView>) -> Option<Seq<char>> {
    match p.version {
        None => None,
        Some(v) => {
            let k = spec_first_named(groups, v);
            if k < groups.len() {
                groups[k].version
            } else {
                Some(v)
            }
        },
    }
}

#[verifier::loop_isolation(false)]
fn lookup_group_version(groups: &Vec<Group>, name: &str) -> (r: Option<String>)
    ensures
        ({
            let l = groups.deep_view();
            let k = spec_first_named(l, name@);
            if k < l.len() {
                r.deep_view() == l[k].version
            } else {
                r is None
            }
        }),
{
    let ghost l = groups.deep_view();
    proof {
        lemma_first_named(l, name@);
    }
    let mut i: usize = 0;
    while i < groups.len()
        invariant
            i <= groups.len(),
            groups.deep_view() == l,
            forall|j: int| 0 <= j < i ==> (#[trigger] l[j]).name != name@,
        decreases groups.len() - i,
    {
        if str_eq(groups[i].name.as_str(), name) {
            proof {
                assert(l[i as int].name == name@);
                assert(spec_first_named(l, name@) == i as int) by {
                    lemma_first_named(l, name@);
                }
            }
            return clone_opt_string(&groups[i].version);
        }
        i = i + 1;
    }
    proof {
        assert(spec_first_named(l, name@) == l.len()) by {
            lemma_first_named(l, name@);
            if spec_first_named(l, name@) < l.len() {
                assert(l[spec_first_named(l, name@)].name == name@);
            }
        }
    }
    None
}

/// One entry of an import's sync plan: write the version into the
/// project directory's pin file.
#[derive(Debug, Clone, PartialEq, Eq)]
pub struct SyncEntry {
    pub path: String,
    pub version: String,
}

/// The mathematical shape of a sync entry.
#[verifier::ext_equal]
pub ghost struct SyncEntryView {
    pub path: Seq<char>,
    pub version: Seq<char>,
}

impl DeepView for SyncEntry {
    type V = SyncEntryView;

    open spec fn deep_view(&self) -> SyncEntryView {
        SyncEntryView { path: self.path@, version: self.version@ }
    }
}

/// The sync plan of a whole import, in project order: one entry per
/// project that resolves to a version.
pub open spec fn spec_sync_plan(projects: Seq<ProjectView>, groups: Seq<GroupView>) -> Seq<
    SyncEntryView,
>
    decreases projects.len(),
{
    if projects.len() == 0 {
        Seq::empty()
    } else {
        let done = spec_sync_plan(projects.drop_last(), groups);
        match spec_sync_version(projects.last(), groups) {
            Some(v) => done.push(SyncEntryView { path: projects.last().path, version: v }),
            None => done,
        }
    }
}

/// Plans the version sync of an import: each project follows its
/// own version, or the version of the group it names.
#[verifier::loop_isolation(false)]
pub fn import_sync_plan(projects: &Vec<Project>, groups: &Vec<Group>) -> (r: Vec<SyncEntry>)
    ensures
        r.deep_view() == spec_sync_plan(projects.deep_view(), groups.deep_view()),
{
    let ghost ps = projects.deep_view();
    let ghost gs = groups.deep_view();
    let mut r: Vec<SyncEntry> = Vec::new();
    let mut i: usize = 0;
    proof {
        assert(ps.take(0) =~= Seq::<ProjectView>::empty());
        assert(r.deep_view() =~= spec_sync_plan(ps.take(0), gs));
    }
    while i < projects.len()
        invariant
            i <= projects.len(),
            r.deep_view() == spec_sync_plan(ps.take(i as int), gs),
        decreases projects.len() - i,
    {
        proof {
            assert(ps.take(i + 1).drop_last() =~= ps.take(i as int));
            assert(ps.take(i + 1).last() == ps[i as int]);
        }
        let p = &projects[i];
        let resolved = match &p.version {
            Some(v) => match lookup_group_version(groups, v.as_str()) {
                Some(gv) => Some(gv),
                None => {
                    if contains_group_named(groups, v.as_str()) {
                        None
                    } else {
                        Some(v.clone())
                    }
                },
            },
            None => None,
        };
        if let Some(version) = resolved {
            r.push(SyncEntry { path: p.path.clone(), version });
            proof {
                assert(r.deep_view() =~= spec_sync_plan(ps.take(i + 1), gs));
            }
        } else {
            proof {
                assert(r.deep_view() =~= spec_sync_plan(ps.take(i + 1), gs));
            }
        }
        i = i + 1;
    }
    proof {
        assert(ps.take(projects.len() as int) =~= ps);
    }
    r
}

#[verifier::loop_isolation(false)]
fn contains_group_named(groups: &Vec<Group>, name: &str) -> (r: bool)
    ensures
        r == (spec_first_named(groups.deep_view(), name@) < groups.deep_view().len()),
{
    let ghost l = groups.deep_view();
    proof {
        lemma_first_named(l, name@);
    }
    let mut i: usize = 0;
    while i < groups.len()
        invariant
            i <= groups.len(),
            groups.deep_view() == l,
            forall|j: int| 0 <= j < i ==> (#[trigger] l[j]).name != name@,
        decreases groups.len() - i,
    {
        if str_eq(groups[i].name.as_str(), name) {
            proof {
                assert(l[i as int].name == name@);
                lemma_first_named(l, name@);
                if spec_first_named(l, name@) >= l.len() {
                    assert(l[i as int].name != name@);
                }
            }
            return true;
        }
        i = i + 1;
    }
    proof {
        if spec_first_named(l, name@) < l.len() {
            assert(l[spec_first_named(l, name@)].name == name@);
        }
    }
    false
}

/// What an import returns to the caller: the color, settings and
/// mirrors carried by the file.
pub fn import_summary(data: ConfigrationData) -> (r: ConfigrationImport)
    ensures
        r.color == data.color,
        r.setting == data.setting,
        r.mirrors == data.mirrors,
{
    ConfigrationImport { color: data.color, setting: data.setting, mirrors: data.mirrors }
}

} // verus!
