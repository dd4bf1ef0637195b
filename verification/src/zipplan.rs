//! The zip extraction planner: turns each archive entry into the
//! filesystem steps that materialize it under the destination, so
//! that parent directories exist whatever order the central
//! directory lists its entries in.

use vstd::prelude::*;

use crate::text::{after_last_slash, join_path, lemma_after_last_slash_at_least,
    spec_after_last_slash, spec_dir_part};

verus! {

/// One filesystem step of an extraction plan.
#[derive(Debug, Clone, PartialEq, Eq)]
pub enum FsStep {
    /// Create this directory and its missing ancestors; an existing
    /// directory is left alone.
    EnsureDir { path: String },
    /// Create this file anew; an already existing path is a fault.
    CreateFile { path: String },
}

impl View for FsStep {
    type V = (bool, Seq<char>);

    open spec fn view(&self) -> (bool, Seq<char>) {
        match self {
            FsStep::EnsureDir { path } => (true, path@),
            FsStep::CreateFile { path } => (false, path@),
        }
    }
}

/// An entry whose name ends with `/` denotes a directory.
pub open spec fn spec_is_dir_name(name: Seq<char>) -> bool {
    name.len() > 0 && name[name.len() - 1] == '/'
}

/// Where an entry lands: `{dest}/{name}`.
pub open spec fn spec_entry_path(dest: Seq<char>, name: Seq<char>) -> Seq<char> {
    dest + seq!['/'] + name
}

/// The plan for one entry: a directory entry is ensured in place; a
/// file entry first has its parent directory ensured, then the file
/// created anew.
pub open spec fn spec_entry_plan(dest: Seq<char>, name: Seq<char>) -> Seq<(bool, Seq<char>)> {
    let path = spec_entry_path(dest, name);
    if spec_is_dir_name(name) {
        seq![(true, path)]
    } else {
        seq![(true, spec_dir_part(path)), (false, path)]
    }
}

/// Whether an entry name denotes a directory.
pub fn entry_is_dir(name: &str) -> (r: bool)
    ensures
        r == spec_is_dir_name(name@),
{
    let n = name.unicode_len();
    n > 0 && name.get_char(n - 1) == '/'
}

/// Plans the filesystem steps for one zip entry.
pub fn plan_zip_entry(dest: &str, name: &str) -> (r: Vec<FsStep>)
    ensures
        r@.map_values(|s: FsStep| s@) == spec_entry_plan(dest@, name@),
{
    let path = join_path(dest, name);
    let mut steps: Vec<FsStep> = Vec::new();
    if entry_is_dir(name) {
        steps.push(FsStep::EnsureDir { path });
        proof {
            assert(steps@.map_values(|s: FsStep| s@) =~= spec_entry_plan(dest@, name@));
        }
    } else {
        proof {
            assert(path@[dest@.len() as int] == '/');
            lemma_after_last_slash_at_least(path@, dest@.len() as int);
        }
        let k = after_last_slash(path.as_str());
        let parent = path.as_str().substring_char(0, k - 1).to_owned();
        steps.push(FsStep::EnsureDir { path: parent });
        steps.push(FsStep::CreateFile { path });
        proof {
            assert(steps@.map_values(|s: FsStep| s@) =~= spec_entry_plan(dest@, name@));
        }
    }
    steps
}

/// The concatenated plan of a whole entry list, in archive order.
pub open spec fn spec_entries_plan(dest: Seq<char>, names: Seq<Seq<char>>) -> Seq<
    (bool, Seq<char>),
>
    decreases names.len(),
{
    if names.len() == 0 {
        Seq::empty()
    } else {
        spec_entry_plan(dest, names[0]) + spec_entries_plan(dest, names.drop_first())
    }
}

proof fn lemma_entries_plan_snoc(dest: Seq<char>, names: Seq<Seq<char>>, name: Seq<char>)
    ensures
        spec_entries_plan(dest, names.push(name)) =~= spec_entries_plan(dest, names)
            + spec_entry_plan(dest, name),
    decreases names.len(),
{
    let grown = names.push(name);
    if names.len() == 0 {
        assert(grown[0] == name);
        assert(grown.drop_first() =~= Seq::<Seq<char>>::empty());
        assert(spec_entries_plan(dest, grown.drop_first()) =~= Seq::<(bool, Seq<char>)>::empty());
        assert(spec_entries_plan(dest, names) =~= Seq::<(bool, Seq<char>)>::empty());
        assert(spec_entries_plan(dest, grown) =~= spec_entry_plan(dest, name));
    } else {
        lemma_entries_plan_snoc(dest, names.drop_first(), name);
        assert(grown[0] == names[0]);
        assert(grown.drop_first() =~= names.drop_first().push(name));
        assert(spec_entries_plan(dest, grown) == spec_entry_plan(dest, names[0])
            + spec_entries_plan(dest, grown.drop_first()));
        assert(spec_entry_plan(dest, names[0]) + (spec_entries_plan(dest, names.drop_first())
            + spec_entry_plan(dest, name)) =~= (spec_entry_plan(dest, names[0])
            + spec_entries_plan(dest, names.drop_first())) + spec_entry_plan(dest, name));
    }
}

/// Plans the filesystem steps of a whole archive, in entry order.
pub fn plan_zip_entries(dest: &str, names: &Vec<String>) -> (r: Vec<FsStep>)
    ensures
        r@.map_values(|s: FsStep| s@) == spec_entries_plan(dest@, names.deep_view()),
{
    let mut steps: Vec<FsStep> = Vec::new();
    let mut i: usize = 0;
    proof {
        assert(names.deep_view().take(0) =~= Seq::<Seq<char>>::empty());
        assert(steps@.map_values(|s: FsStep| s@) =~= spec_entries_plan(
            dest@,
            names.deep_view().take(0),
        ));
    }
    while i < names.len()
        invariant
            i <= names.len(),
            names.deep_view().len() == names.len(),
            steps@.map_values(|s: FsStep| s@) == spec_entries_plan(
                dest@,
                names.deep_view().take(i as int),
            ),
        decreases names.len() - i,
    {
        let ghost done = names.deep_view().take(i as int);
        let mut entry = plan_zip_entry(dest, names[i].as_str());
        steps.append(&mut entry);
        proof {
            assert(names.deep_view()[i as int] == names@[i as int]@);
            lemma_entries_plan_snoc(dest@, done, names.deep_view()[i as int]);
            assert(names.deep_view().take(i + 1) =~= done.push(names.deep_view()[i as int]));
            assert(steps@.map_values(|s: FsStep| s@) =~= spec_entries_plan(
                dest@,
                names.deep_view().take(i + 1),
            ));
        }
        i = i + 1;
    }
    proof {
        assert(names.deep_view().take(names.len() as int) =~= names.deep_view());
    }
    steps
}

/// Whatever order the archive lists its entries in, the plan
/// ensures the parent directory of every file before it creates the
/// file.
pub proof fn lemma_parents_before_files(dest: Seq<char>, names: Seq<Seq<char>>)
    ensures
        ({
            let plan = spec_entries_plan(dest, names);
            forall|k: int|
                0 <= k < plan.len() && !(#[trigger] plan[k]).0 ==> exists|j: int|
                    0 <= j < k && plan[j] == (true, spec_dir_part(plan[k].1))
        }),
    decreases names.len(),
{
    let plan = spec_entries_plan(dest, names);
    if names.len() > 0 {
        let head = spec_entry_plan(dest, names[0]);
        let tail = spec_entries_plan(dest, names.drop_first());
        lemma_parents_before_files(dest, names.drop_first());
        assert(plan == head + tail);
        assert forall|k: int| 0 <= k < plan.len() && !(#[trigger] plan[k]).0 implies exists|j: int|
            0 <= j < k && plan[j] == (true, spec_dir_part(plan[k].1)) by {
            let h = head.len() as int;
            if k < h {
                assert(plan[k] == head[k]);
                assert(!spec_is_dir_name(names[0]));
                assert(k == 1);
                assert(plan[0] == head[0]);
                assert(plan[0] == (true, spec_dir_part(plan[1].1)));
            } else {
                assert(plan[k] == tail[k - h]);
                let j2 = choose|j2: int|
                    0 <= j2 < k - h && #[trigger] tail[j2] == (true, spec_dir_part(tail[k - h].1));
                assert(plan[j2 + h] == tail[j2]);
            }
        }
    }
}

} // verus!
