//! The group store: named groups of projects sharing one runtime
//! version.  Reading and writing the backing file is the
//! application's work; the list manipulation here is verified.

use vstd::prelude::*;

use crate::errors::StoreError;
use crate::platform::str_eq;
use crate::strlist::{clone_opt_string, clone_string_vec, contains_string, remove_string,
    spec_remove_all};

verus! {

/// A named group of projects pinned to one version.
#[derive(Debug, Clone, Default)]
pub struct Group {
    pub name: String,
    pub desc: Option<String>,
    pub projects: Vec<String>,
    pub version: Option<String>,
}

/// The mathematical shape of a group.
#[verifier::ext_equal]
pub ghost struct GroupView {
    pub name: Seq<char>,
    pub desc: Option<Seq<char>>,
    pub projects: Seq<Seq<char>>,
    pub version: Option<Seq<char>>,
}

impl DeepView for Group {
    type V = GroupView;

    open spec fn deep_view(&self) -> GroupView {
        GroupView {
            name: self.name@,
            desc: self.desc.deep_view(),
            projects: self.projects.deep_view(),
            version: self.version.deep_view(),
        }
    }
}

/// Copies a group.
pub fn clone_group(g: &Group) -> (r: Group)
    ensures
        r.deep_view() == g.deep_view(),
{
    Group {
        name: g.name.clone(),
        desc: clone_opt_string(&g.desc),
        projects: clone_string_vec(&g.projects),
        version: clone_opt_string(&g.version),
    }
}

fn clone_group_vec(list: &Vec<Group>) -> (r: Vec<Group>)
    ensures
        r.deep_view() == list.deep_view(),
{
    let mut r: Vec<Group> = Vec::new();
    let mut i: usize = 0;
    while i < list.len()
        invariant
            i <= list.len(),
            r@.len() == i as int,
            forall|k: int| 0 <= k < i ==> (#[trigger] r@[k]).deep_view() == list@[k].deep_view(),
        decreases list.len() - i,
    {
        r.push(clone_group(&list[i]));
        i = i + 1;
    }
    proof {
        assert(r.deep_view() =~= list.deep_view());
    }
    r
}

/// The index of the first group with the given name, or the length
/// of the list when none has it.
pub open spec fn spec_first_named(l: Seq<GroupView>, name: Seq<char>) -> int
    decreases l.len(),
{
    if l.len() == 0 {
        0
    } else if l[0].name == name {
        0
    } else {
        1 + spec_first_named(l.drop_first(), name)
    }
}

/// `spec_first_named` points at the first match, or past the end
/// when there is none.
pub proof fn lemma_first_named(l: Seq<GroupView>, name: Seq<char>)
    ensures
        0 <= spec_first_named(l, name) <= l.len(),
        spec_first_named(l, name) < l.len() ==> l[spec_first_named(l, name)].name == name,
        forall|j: int| 0 <= j < spec_first_named(l, name) ==> (#[trigger] l[j]).name != name,
    decreases l.len(),
{
    if l.len() > 0 && l[0].name != name {
        lemma_first_named(l.drop_first(), name);
        assert forall|j: int| 0 <= j < spec_first_named(l, name) implies (#[trigger] l[j]).name
            != name by {
            if j > 0 {
                assert(l.drop_first()[j - 1] == l[j]);
            }
        }
    }
}

/// The index of the first group whose projects hold the given path,
/// or the length of the list when none does.
pub open spec fn spec_first_holding(l: Seq<GroupView>, path: Seq<char>) -> int
    decreases l.len(),
{
    if l.len() == 0 {
        0
    } else if l[0].projects.contains(path) {
        0
    } else {
        1 + spec_first_holding(l.drop_first(), path)
    }
}

/// `spec_first_holding` points at the first group holding the path,
/// or past the end when none does.
pub proof fn lemma_first_holding(l: Seq<GroupView>, path: Seq<char>)
    ensures
        0 <= spec_first_holding(l, path) <= l.len(),
        spec_first_holding(l, path) < l.len() ==> l[spec_first_holding(l, path)].projects.contains(
            path,
        ),
        forall|j: int|
            0 <= j < spec_first_holding(l, path) ==> !(#[trigger] l[j]).projects.contains(path),
    decreases l.len(),
{
    if l.len() > 0 && !l[0].projects.contains(path) {
        lemma_first_holding(l.drop_first(), path);
        assert forall|j: int| 0 <= j < spec_first_holding(l, path) implies !(
        #[trigger] l[j]).projects.contains(path) by {
            if j > 0 {
                assert(l.drop_first()[j - 1] == l[j]);
            }
        }
    }
}

/// The index of the last group with the given name, or `-1` when
/// none has it.
pub open spec fn spec_last_named(l: Seq<GroupView>, name: Seq<char>) -> int
    decreases l.len(),
{
    if l.len() == 0 {
        -1
    } else if l.last().name == name {
        l.len() - 1
    } else {
        spec_last_named(l.drop_last(), name)
    }
}

/// `spec_last_named` points at the last match, or below zero when
/// there is none.
pub proof fn lemma_last_named(l: Seq<GroupView>, name: Seq<char>)
    ensures
        -1 <= spec_last_named(l, name) < l.len(),
        spec_last_named(l, name) >= 0 ==> l[spec_last_named(l, name)].name == name,
        forall|j: int| spec_last_named(l, name) < j < l.len() ==> (#[trigger] l[j]).name != name,
    decreases l.len(),
{
    if l.len() > 0 && l.last().name != name {
        lemma_last_named(l.drop_last(), name);
        assert forall|j: int| spec_last_named(l, name) < j < l.len() implies (
        #[trigger] l[j]).name != name by {
            if j < l.len() - 1 {
                assert(l.drop_last()[j] == l[j]);
            }
        }
    }
}

/// A group view with its version replaced.
pub open spec fn spec_with_version(g: GroupView, version: Option<Seq<char>>) -> GroupView {
    GroupView { name: g.name, desc: g.desc, projects: g.projects, version }
}

/// A group view with its project list replaced.
pub open spec fn spec_with_projects(g: GroupView, projects: Seq<Seq<char>>) -> GroupView {
    GroupView { name: g.name, desc: g.desc, projects, version: g.version }
}

/// One group after a project moved to the named group: the path is
/// taken out of its project list, and put back at the end when the
/// group bears the name.
pub open spec fn spec_regrouped(g: GroupView, path: Seq<char>, name: Seq<char>) -> GroupView {
    let cleaned = spec_remove_all(g.projects, path);
    if g.name == name {
        spec_with_projects(g, cleaned.push(path))
    } else {
        spec_with_projects(g, cleaned)
    }
}

/// The group store: the list read from disk, or nothing yet.
#[derive(Debug, Clone, Default)]
pub struct IGroups {
    pub list: Option<Vec<Group>>,
}

/// The stored list, with an unloaded store reading as empty.
pub open spec fn spec_stored_groups(list: Option<Vec<Group>>) -> Seq<GroupView> {
    match list {
        Some(l) => l.deep_view(),
        None => Seq::empty(),
    }
}

impl IGroups {
    /// Builds the store from the list loaded from disk; a failed
    /// load falls back to the template.
    pub fn new(loaded: Option<Vec<Group>>) -> (r: Self)
        ensures
            match loaded {
                Some(l) => r.list == Some(l),
                None => r.list matches Some(v) && v@.len() == 0,
            },
    {
        match loaded {
            Some(l) => IGroups { list: Some(l) },
            None => IGroups::template(),
        }
    }

    /// The default store: an empty list.
    pub fn template() -> (r: Self)
        ensures
            r.list matches Some(v) && v@.len() == 0,
    {
        IGroups { list: Some(Vec::new()) }
    }

    /// A copy of the stored list.
    pub fn get_list(&self) -> (r: Option<Vec<Group>>)
        ensures
            match r {
                Some(v) => self.list matches Some(w) && v.deep_view() == w.deep_view(),
                None => self.list is None,
            },
    {
        match &self.list {
            Some(l) => Some(clone_group_vec(l)),
            None => None,
        }
    }

    /// Replaces the stored list with a copy of the given one.
    pub fn update_list(&mut self, list: &Vec<Group>) -> (r: Result<(), StoreError>)
        ensures
            r is Ok,
            final(self).list matches Some(v) && v.deep_view() == list.deep_view(),
    {
        self.list = Some(clone_group_vec(list));
        Ok(())
    }

    /// Sets the version of the first group with the given name; a
    /// name not in the store is an error and leaves every group
    /// unchanged.
    #[verifier::loop_isolation(false)]
    pub fn update_version(&mut self, name: String, version: String) -> (r: Result<(), StoreError>)
        ensures
            ({
                let l = spec_stored_groups(old(self).list);
                let l2 = spec_stored_groups(final(self).list);
                let k = spec_first_named(l, name@);
                &&& final(self).list is Some
                &&& if k < l.len() {
                    r is Ok && l2 == l.update(k, spec_with_version(l[k], Some(version@)))
                } else {
                    r == Err::<(), StoreError>(StoreError::GroupNotFound) && l2 == l
                }
            }),
    {
        let mut taken: Option<Vec<Group>> = None;
        core::mem::swap(&mut taken, &mut self.list);
        let ghost taken0 = taken;
        let mut list = match taken {
            Some(l) => l,
            None => Vec::new(),
        };
        let ghost l = list.deep_view();
        proof {
            assert(taken0 == old(self).list);
            assert(spec_stored_groups(old(self).list) =~= l);
            lemma_first_named(l, name@);
        }
        let mut i: usize = 0;
        while i < list.len()
            invariant
                i <= list.len(),
                list.deep_view() == l,
                forall|j: int| 0 <= j < i ==> (#[trigger] l[j]).name != name@,
            decreases list.len() - i,
        {
            if str_eq(list[i].name.as_str(), name.as_str()) {
                proof {
                    assert(l[i as int].name == name@);
                    assert(spec_first_named(l, name@) == i as int) by {
                        lemma_first_named(l, name@);
                    }
                }
                let g = list.remove(i);
                let updated = Group {
                    name: g.name,
                    desc: g.desc,
                    projects: g.projects,
                    version: Some(version),
                };
                list.insert(i, updated);
                proof {
                    assert(list.deep_view() =~~= l.update(
                        i as int,
                        spec_with_version(l[i as int], Some(version@)),
                    ));
                }
                self.list = Some(list);
                return Ok(());
            }
            i = i + 1;
        }
        proof {
            assert(spec_first_named(l, name@) == l.len()) by {
                lemma_first_named(l, name@);
                if spec_first_named(l, name@) < l.len() {
                    assert(l[spec_first_named(l, name@)].name == name@);
                }
            }
        }
        self.list = Some(list);
        Err(StoreError::GroupNotFound)
    }

    /// Takes the given project path out of the first group that
    /// holds it; reports whether any group changed.
    #[verifier::loop_isolation(false)]
    pub fn update_projects(&mut self, path: &String) -> (r: Result<bool, StoreError>)
        ensures
            ({
                let l = spec_stored_groups(old(self).list);
                let l2 = spec_stored_groups(final(self).list);
                let k = spec_first_holding(l, path@);
                &&& final(self).list is Some
                &&& if k < l.len() {
                    r == Ok::<bool, StoreError>(true) && l2 == l.update(
                        k,
                        spec_with_projects(l[k], spec_remove_all(l[k].projects, path@)),
                    )
                } else {
                    r == Ok::<bool, StoreError>(false) && l2 == l
                }
            }),
    {
        let mut taken: Option<Vec<Group>> = None;
        core::mem::swap(&mut taken, &mut self.list);
        let ghost taken0 = taken;
        let mut list = match taken {
            Some(l) => l,
            None => Vec::new(),
        };
        let ghost l = list.deep_view();
        proof {
            assert(taken0 == old(self).list);
            assert(spec_stored_groups(old(self).list) =~= l);
        }
        let mut i: usize = 0;
        while i < list.len()
            invariant
                i <= list.len(),
                list.deep_view() == l,
                forall|j: int| 0 <= j < i ==> !(#[trigger] l[j]).projects.contains(path@),
            decreases list.len() - i,
        {
            if contains_string(&list[i].projects, path.as_str()) {
                proof {
                    assert(l[i as int].projects.contains(path@));
                    assert(spec_first_holding(l, path@) == i as int) by {
                        lemma_first_holding(l, path@);
                    }
                }
                let g = list.remove(i);
                let cleaned = Group {
                    name: g.name,
                    desc: g.desc,
                    projects: remove_string(&g.projects, path.as_str()),
                    version: g.version,
                };
                list.insert(i, cleaned);
                proof {
                    assert(list.deep_view() =~~= l.update(
                        i as int,
                        spec_with_projects(
                            l[i as int],
                            spec_remove_all(l[i as int].projects, path@),
                        ),
                    ));
                }
                self.list = Some(list);
                return Ok(true);
            }
            i = i + 1;
        }
        proof {
            assert(spec_first_holding(l, path@) == l.len()) by {
                lemma_first_holding(l, path@);
                if spec_first_holding(l, path@) < l.len() {
                    assert(l[spec_first_holding(l, path@)].projects.contains(path@));
                }
            }
        }
        self.list = Some(list);
        Ok(false)
    }

    /// Moves a project into the named group: every group loses the
    /// path, every group with the name gains it, and the version of
    /// the last such group comes back so the project can follow it.
    #[verifier::loop_isolation(false)]
    pub fn update_projects_version(&mut self, path: &str, name: &str) -> (r: Result<
        Option<String>,
        StoreError,
    >)
        ensures
            ({
                let l = spec_stored_groups(old(self).list);
                let l2 = spec_stored_groups(final(self).list);
                let k = spec_last_named(l, name@);
                &&& final(self).list is Some
                &&& l2.len() == l.len()
                &&& forall|i: int|
                    0 <= i < l.len() ==> l2[i] == spec_regrouped(#[trigger] l[i], path@, name@)
                &&& r matches Ok(v) && if k >= 0 {
                    v.deep_view() == l[k].version
                } else {
                    v is None
                }
            }),
    {
        let mut taken: Option<Vec<Group>> = None;
        core::mem::swap(&mut taken, &mut self.list);
        let ghost taken0 = taken;
        let mut list = match taken {
            Some(l) => l,
            None => Vec::new(),
        };
        let ghost l = list.deep_view();
        proof {
            assert(taken0 == old(self).list);
            assert(spec_stored_groups(old(self).list) =~= l);
            lemma_last_named(l, name@);
        }
        let mut version_out: Option<String> = None;
        let mut i: usize = 0;
        while i < list.len()
            invariant
                i <= list.len(),
                list@.len() == l.len(),
                forall|k: int|
                    0 <= k < i ==> list.deep_view()[k] == spec_regrouped(
                        #[trigger] l[k],
                        path@,
                        name@,
                    ),
                forall|k: int| i <= k < l.len() ==> list.deep_view()[k] == #[trigger] l[k],
                ({
                    let ki = spec_last_named(l.take(i as int), name@);
                    if ki >= 0 {
                        version_out.deep_view() == l[ki].version
                    } else {
                        version_out is None
                    }
                }),
            decreases list.len() - i,
        {
            proof {
                assert(l.take(i + 1).drop_last() =~= l.take(i as int));
                assert(l.take(i + 1).last() == l[i as int]);
                lemma_last_named(l.take(i as int), name@);
            }
            let g = list.remove(i);
            proof {
                assert(g.deep_view() == l[i as int]);
            }
            let mut projects = remove_string(&g.projects, path);
            if str_eq(g.name.as_str(), name) {
                version_out = clone_opt_string(&g.version);
                let mut p = String::new();
                p.append(path);
                projects.push(p);
            }
            let regrouped = Group { name: g.name, desc: g.desc, projects, version: g.version };
            proof {
                assert(regrouped.deep_view() =~~= spec_regrouped(l[i as int], path@, name@));
            }
            list.insert(i, regrouped);
            i = i + 1;
        }
        proof {
            assert(l.take(l.len() as int) =~= l);
        }
        self.list = Some(list);
        Ok(version_out)
    }
}

} // verus!
