//! The zip extraction planner on archives whose entries come in
//! awkward orders.

use nvmd::zipplan::{entry_is_dir, plan_zip_entries, plan_zip_entry, FsStep};

#[test]
fn dir_entries_end_with_a_slash() {
    assert!(entry_is_dir("node-v18.0.0-win-x64/"));
    assert!(entry_is_dir("a/b/"));
    assert!(!entry_is_dir("a/b"));
    assert!(!entry_is_dir(""));
}

#[test]
fn a_file_entry_gets_its_parent_first() {
    let steps = plan_zip_entry("/tmp/x", "pkg/bin/node.exe");
    assert_eq!(
        steps,
        vec![
            FsStep::EnsureDir {
                path: "/tmp/x/pkg/bin".to_string()
            },
            FsStep::CreateFile {
                path: "/tmp/x/pkg/bin/node.exe".to_string()
            },
        ]
    );
}

#[test]
fn a_dir_entry_is_ensured_in_place() {
    let steps = plan_zip_entry("/tmp/x", "pkg/bin/");
    assert_eq!(
        steps,
        vec![FsStep::EnsureDir {
            path: "/tmp/x/pkg/bin/".to_string()
        }]
    );
}

#[test]
fn out_of_order_entries_still_get_their_parents() {
    // The file comes before the directories that hold it; the plan
    // still creates its parent before the file itself.
    let names = vec![
        "pkg/lib/node_modules/npm/README.md".to_string(),
        "pkg/".to_string(),
        "pkg/lib/".to_string(),
    ];
    let steps = plan_zip_entries("/tmp/x", &names);
    assert_eq!(
        steps,
        vec![
            FsStep::EnsureDir {
                path: "/tmp/x/pkg/lib/node_modules/npm".to_string()
            },
            FsStep::CreateFile {
                path: "/tmp/x/pkg/lib/node_modules/npm/README.md".to_string()
            },
            FsStep::EnsureDir {
                path: "/tmp/x/pkg/".to_string()
            },
            FsStep::EnsureDir {
                path: "/tmp/x/pkg/lib/".to_string()
            },
        ]
    );
    // Every file creation is preceded by the step that ensures its
    // parent directory.
    for (k, step) in steps.iter().enumerate() {
        if let FsStep::CreateFile { path } = step {
            let parent = &path[..path.rfind('/').unwrap()];
            assert!(steps[..k].iter().any(|s| matches!(
                s,
                FsStep::EnsureDir { path: p } if p == parent
            )));
        }
    }
}

#[test]
fn a_bare_file_name_falls_back_to_the_destination() {
    let steps = plan_zip_entry("/tmp/x", "LICENSE");
    assert_eq!(
        steps,
        vec![
            FsStep::EnsureDir {
                path: "/tmp/x".to_string()
            },
            FsStep::CreateFile {
                path: "/tmp/x/LICENSE".to_string()
            },
        ]
    );
}
