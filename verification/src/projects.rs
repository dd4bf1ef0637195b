//! The project store: directories bound to a runtime version.
//! Reading and writing the backing file is the application's work;
//! the list manipulation here is verified.

use vstd::prelude::*;

use crate::errors::StoreError;
use crate::platform::str_eq;
use crate::strlist::clone_opt_string;

verus! {

/// One tracked project directory.
#[derive(Debug, Clone, Default)]
pub struct Project {
    pub active: bool,
    pub name: String,
    pub path: String,
    pub version: Option<String>,
    pub create_at: Option<String>,
    pub update_at: Option<String>,
}

/// The mathematical shape of a project.
#[verifier::ext_equal]
pub ghost struct ProjectView {
    pub active: bool,
    pub name: Seq<char>,
    pub path: Seq<char>,
    pub version: Option<Seq<char>>,
    pub create_at: Option<Seq<char>>,
    pub update_at: Option<Seq<char>>,
}

impl DeepView for Project {
    type V = ProjectView;

    open spec fn deep_view(&self) -> ProjectView {
        ProjectView {
            active: self.active,
            name: self.name@,
            path: self.path@,
            version: self.version.deep_view(),
            create_at: self.create_at.deep_view(),
            update_at: self.update_at.deep_view(),
        }
    }
}

/// Copies a project.
pub fn clone_project(p: &Project) -> (r: Project)
    ensures
        r.deep_view() == p.deep_view(),
{
    Project {
        active: p.active,
        name: p.name.clone(),
        path: p.path.clone(),
        version: clone_opt_string(&p.version),
        create_at: clone_opt_string(&p.create_at),
        update_at: clone_opt_string(&p.update_at),
    }
}

fn clone_project_vec(list: &Vec<Project>) -> (r: Vec<Project>)
    ensures
        r.deep_view() == list.deep_view(),
{
    let mut r: Vec<Project> = Vec::new();
    let mut i: usize = 0;
    while i < list.len()
        invariant
            i <= list.len(),
            r@.len() == i as int,
            forall|k: int| 0 <= k < i ==> (#[trigger] r@[k]).deep_view() == list@[k].deep_view(),
        decreases list.len() - i,
    {
        r.push(clone_project(&list[i]));
        i = i + 1;
    }
    proof {
        assert(r.deep_view() =~= list.deep_view());
    }
    r
}

/// The index of the first project with the given name, or the
/// length of the list when none has it.
pub open spec fn spec_first_project_named(l: Seq<ProjectView>, name: Seq<char>) -> int
    decreases l.len(),
{
    if l.len() == 0 {
        0
    } else if l[0].name == name {
        0
    } else {
        1 + spec_first_project_named(l.drop_first(), name)
    }
}

/// `spec_first_project_named` points at the first match, or past
/// the end when there is none.
pub proof fn lemma_first_project_named(l: Seq<ProjectView>, name: Seq<char>)
    ensures
        0 <= spec_first_project_named(l, name) <= l.len(),
        spec_first_project_named(l, name) < l.len() ==> l[spec_first_project_named(l, name)].name
            == name,
        forall|j: int|
            0 <= j < spec_first_project_named(l, name) ==> (#[trigger] l[j]).name != name,
    decreases l.len(),
{
    if l.len() > 0 && l[0].name != name {
        lemma_first_project_named(l.drop_first(), name);
        assert forall|j: int| 0 <= j < spec_first_project_named(l, name) implies (
        #[trigger] l[j]).name != name by {
            if j > 0 {
                assert(l.drop_first()[j - 1] == l[j]);
            }
        }
    }
}

/// A project view with its version replaced.
pub open spec fn spec_project_with_version(p: ProjectView, version: Option<Seq<char>>) -> ProjectView {
    ProjectView {
        active: p.active,
        name: p.name,
        path: p.path,
        version,
        create_at: p.create_at,
        update_at: p.update_at,
    }
}

/// A directory picked by the user, with the version pinned in it,
/// if any.
#[derive(Debug, Clone, Default)]
pub struct PInfo {
    /// The project directory.
    pub path: String,
    /// The version its pin file holds.
    pub version: Option<String>,
}

/// The project store: the list read from disk, or nothing yet.
#[derive(Debug, Clone, Default)]
pub struct IProjects {
    pub list: Option<Vec<Project>>,
}

/// The stored list, with an unloaded store reading as empty.
pub open spec fn spec_stored_projects(list: Option<Vec<Project>>) -> Seq<ProjectView> {
    match list {
        Some(l) => l.deep_view(),
        None => Seq::empty(),
    }
}

impl IProjects {
    /// Builds the store from the list loaded from disk; a failed
    /// load falls back to the template.
    pub fn new(loaded: Option<Vec<Project>>) -> (r: Self)
        ensures
            match loaded {
                Some(l) => r.list == Some(l),
                None => r.list matches Some(v) && v@.len() == 0,
            },
    {
        match loaded {
            Some(l) => IProjects { list: Some(l) },
            None => IProjects::template(),
        }
    }

    /// The default store: an empty list.
    pub fn template() -> (r: Self)
        ensures
            r.list matches Some(v) && v@.len() == 0,
    {
        IProjects { list: Some(Vec::new()) }
    }

    /// A copy of the stored list.
    pub fn get_list(&self) -> (r: Option<Vec<Project>>)
        ensures
            match r {
                Some(v) => self.list matches Some(w) && v.deep_view() == w.deep_view(),
                None => self.list is None,
            },
    {
        match &self.list {
            Some(l) => Some(clone_project_vec(l)),
            None => None,
        }
    }

    /// Replaces the stored list with a copy of the given one.
    pub fn update_list(&mut self, list: &Vec<Project>) -> (r: Result<(), StoreError>)
        ensures
            r is Ok,
            final(self).list matches Some(v) && v.deep_view() == list.deep_view(),
    {
        self.list = Some(clone_project_vec(list));
        Ok(())
    }

    /// Sets the version of the first project with the given name
    /// and returns its path; a name not in the store is an error
    /// and leaves every project unchanged.
    #[verifier::loop_isolation(false)]
    pub fn update_version(&mut self, name: &str, version: &str) -> (r: Result<String, StoreError>)
        ensures
            ({
                let l = spec_stored_projects(old(self).list);
                let l2 = spec_stored_projects(final(self).list);
                let k = spec_first_project_named(l, name@);
                &&& final(self).list is Some
                &&& if k < l.len() {
                    r matches Ok(p) && p@ == l[k].path && l2 == l.update(
                        k,
                        spec_project_with_version(l[k], Some(version@)),
                    )
                } else {
                    r == Err::<String, StoreError>(StoreError::ProjectNotFound) && l2 == l
                }
            }),
    {
        let mut taken: Option<Vec<Project>> = None;
        core::mem::swap(&mut taken, &mut self.list);
        let ghost taken0 = taken;
        let mut list = match taken {
            Some(l) => l,
            None => Vec::new(),
        };
        let ghost l = list.deep_view();
        proof {
            assert(taken0 == old(self).list);
            assert(spec_stored_projects(old(self).list) =~= l);
            lemma_first_project_named(l, name@);
        }
        let mut i: usize = 0;
        while i < list.len()
            invariant
                i <= list.len(),
                list.deep_view() == l,
                forall|j: int| 0 <= j < i ==> (#[trigger] l[j]).name != name@,
            decreases list.len() - i,
        {
            if str_eq(list[i].name.as_str(), name) {
                proof {
                    assert(l[i as int].name == name@);
                    assert(spec_first_project_named(l, name@) == i as int) by {
                        lemma_first_project_named(l, name@);
                    }
                }
                let p = list.remove(i);
                let path = p.path.clone();
                let mut v = String::new();
                v.append(version);
                let updated = Project {
                    active: p.active,
                    name: p.name,
                    path: p.path,
                    version: Some(v),
                    create_at: p.create_at,
                    update_at: p.update_at,
                };
                list.insert(i, updated);
                proof {
                    assert(list.deep_view() =~~= l.update(
                        i as int,
                        spec_project_with_version(l[i as int], Some(version@)),
                    ));
                }
                self.list = Some(list);
                return Ok(path);
            }
            i = i + 1;
        }
        proof {
            assert(spec_first_project_named(l, name@) == l.len()) by {
                lemma_first_project_named(l, name@);
                if spec_first_project_named(l, name@) < l.len() {
                    assert(l[spec_first_project_named(l, name@)].name == name@);
                }
            }
        }
        self.list = Some(list);
        Err(StoreError::ProjectNotFound)
    }
}

} // verus!
