//! The settings, project and group stores, the progress rate
//! limiter, the path layout, and configuration transfer.

use nvmd::client::Proxy;
use nvmd::configration::{export_payload, import_summary, import_sync_plan, ConfigrationData,
    ConfigrationExport, SyncEntry};
use nvmd::errors::StoreError;
use nvmd::groups::{Group, IGroups};
use nvmd::paths;
use nvmd::progress::Debouncer;
use nvmd::projects::{IProjects, Project};
use nvmd::settings::ISettings;

fn group(name: &str, projects: &[&str], version: Option<&str>) -> Group {
    Group {
        name: name.to_string(),
        desc: None,
        projects: projects.iter().map(|p| p.to_string()).collect(),
        version: version.map(|v| v.to_string()),
    }
}

fn project(name: &str, path: &str, version: Option<&str>) -> Project {
    Project {
        active: true,
        name: name.to_string(),
        path: path.to_string(),
        version: version.map(|v| v.to_string()),
        create_at: None,
        update_at: None,
    }
}

#[test]
fn group_version_update_hits_the_first_match() {
    let mut store = IGroups::new(Some(vec![
        group("work", &["/a"], Some("18.0.0")),
        group("play", &["/b"], None),
        group("work", &[], None),
    ]));
    store
        .update_version("work".to_string(), "20.2.3".to_string())
        .unwrap();
    let list = store.list.unwrap();
    assert_eq!(list[0].version, Some("20.2.3".to_string()));
    assert_eq!(list[1].version, None);
    assert_eq!(list[2].version, None);
}

#[test]
fn group_version_update_unknown_name_fails() {
    let mut store = IGroups::new(Some(vec![group("work", &[], None)]));
    assert_eq!(
        store.update_version("home".to_string(), "20.2.3".to_string()),
        Err(StoreError::GroupNotFound)
    );
    assert_eq!(store.list.as_ref().unwrap().len(), 1);
    assert_eq!(store.list.unwrap()[0].version, None);
}

#[test]
fn group_project_removal_reports_whether_anything_changed() {
    let mut store = IGroups::new(Some(vec![
        group("a", &["/p", "/q", "/p"], None),
        group("b", &["/p"], None),
    ]));
    assert_eq!(store.update_projects(&"/p".to_string()), Ok(true));
    let list = store.list.as_ref().unwrap();
    // Every occurrence leaves the first group that held the path;
    // later groups keep theirs.
    assert_eq!(list[0].projects, vec!["/q".to_string()]);
    assert_eq!(list[1].projects, vec!["/p".to_string()]);

    let mut store = IGroups::new(Some(vec![group("a", &["/q"], None)]));
    assert_eq!(store.update_projects(&"/p".to_string()), Ok(false));
    assert_eq!(store.list.unwrap()[0].projects, vec!["/q".to_string()]);
}

#[test]
fn moving_a_project_between_groups() {
    let mut store = IGroups::new(Some(vec![
        group("old", &["/p", "/r"], Some("16.0.0")),
        group("new", &["/s"], Some("20.2.3")),
    ]));
    let version = store.update_projects_version("/p", "new").unwrap();
    assert_eq!(version, Some("20.2.3".to_string()));
    let list = store.list.unwrap();
    assert_eq!(list[0].projects, vec!["/r".to_string()]);
    assert_eq!(list[1].projects, vec!["/s".to_string(), "/p".to_string()]);
}

#[test]
fn moving_a_project_to_an_unknown_group_yields_no_version() {
    let mut store = IGroups::new(Some(vec![group("old", &["/p"], Some("16.0.0"))]));
    let version = store.update_projects_version("/p", "absent").unwrap();
    assert_eq!(version, None);
    assert_eq!(store.list.unwrap()[0].projects, Vec::<String>::new());
}

#[test]
fn group_store_falls_back_to_the_template() {
    let store = IGroups::new(None);
    assert_eq!(store.list.as_ref().unwrap().len(), 0);
    assert_eq!(IGroups::template().list.unwrap().len(), 0);
}

#[test]
fn group_list_round_trip() {
    let mut store = IGroups::template();
    let list = vec![group("work", &["/a"], Some("18.0.0"))];
    store.update_list(&list).unwrap();
    let copy = store.get_list().unwrap();
    assert_eq!(copy.len(), 1);
    assert_eq!(copy[0].name, "work");
    assert_eq!(copy[0].projects, vec!["/a".to_string()]);
    assert_eq!(copy[0].version, Some("18.0.0".to_string()));
}

#[test]
fn project_version_update_returns_the_path() {
    let mut store = IProjects::new(Some(vec![
        project("app", "/home/u/app", Some("16.0.0")),
        project("web", "/home/u/web", None),
    ]));
    let path = store.update_version("web", "20.2.3").unwrap();
    assert_eq!(path, "/home/u/web");
    let list = store.list.unwrap();
    assert_eq!(list[0].version, Some("16.0.0".to_string()));
    assert_eq!(list[1].version, Some("20.2.3".to_string()));
}

#[test]
fn project_version_update_unknown_name_fails() {
    let mut store = IProjects::new(Some(vec![project("app", "/a", None)]));
    assert_eq!(
        store.update_version("ghost", "20.2.3"),
        Err(StoreError::ProjectNotFound)
    );
}

#[test]
fn project_store_template_and_round_trip() {
    assert_eq!(IProjects::new(None).list.unwrap().len(), 0);
    let mut store = IProjects::template();
    let list = vec![project("app", "/a", Some("18.0.0"))];
    store.update_list(&list).unwrap();
    let copy = store.get_list().unwrap();
    assert_eq!(copy[0].path, "/a");
}

#[test]
fn settings_template_defaults() {
    let s = ISettings::template("/home/u");
    assert_eq!(s.directory, Some("/home/u/.nvmd/versions".to_string()));
    assert_eq!(s.enable_silent_start, Some(false));
    assert_eq!(s.locale, Some("en".to_string()));
    assert_eq!(s.mirror, Some("https://nodejs.org/dist".to_string()));
    assert!(s.proxy.is_none());
    assert_eq!(s.no_proxy, Some(false));
    assert_eq!(s.theme, Some("system".to_string()));
    assert!(s.closer.is_none());
    let loaded = ISettings::new(None, "/home/u");
    assert_eq!(loaded.mirror, Some("https://nodejs.org/dist".to_string()));
}

#[test]
fn settings_patch_overlays_only_set_fields() {
    let mut s = ISettings::template("/home/u");
    let patch = ISettings {
        closer: Some("close".to_string()),
        directory: None,
        enable_silent_start: None,
        locale: Some("zh-CN".to_string()),
        mirror: None,
        proxy: Some(Proxy {
            enabled: true,
            ip: "127.0.0.1".to_string(),
            port: "7890".to_string(),
        }),
        no_proxy: None,
        theme: None,
    };
    s.patch_settings(patch).unwrap();
    assert_eq!(s.closer, Some("close".to_string()));
    assert_eq!(s.locale, Some("zh-CN".to_string()));
    assert_eq!(s.directory, Some("/home/u/.nvmd/versions".to_string()));
    assert_eq!(s.mirror, Some("https://nodejs.org/dist".to_string()));
    assert_eq!(s.proxy.as_ref().unwrap().port, "7890");
    assert_eq!(s.no_proxy, Some(false));
    assert_eq!(s.theme, Some("system".to_string()));
    assert_eq!(s.get_closer(), Some("close".to_string()));
    assert_eq!(s.get_directory(), Some("/home/u/.nvmd/versions".to_string()));
    assert_eq!(s.get_mirror(), Some("https://nodejs.org/dist".to_string()));
    assert_eq!(s.get_no_proxy(), Some(false));
    assert_eq!(s.get_proxy().unwrap().ip, "127.0.0.1");
}

#[test]
fn path_layout_under_home() {
    let home = "/home/u";
    assert_eq!(paths::nvmd_home_dir(home), "/home/u/.nvmd");
    assert_eq!(paths::settings_path(home), "/home/u/.nvmd/setting.json");
    assert_eq!(paths::projects_path(home), "/home/u/.nvmd/projects.json");
    assert_eq!(paths::groups_path(home), "/home/u/.nvmd/groups.json");
    assert_eq!(paths::migration_path(home), "/home/u/.nvmd/migration");
    assert_eq!(paths::bin_path(home), "/home/u/.nvmd/bin");
    assert_eq!(paths::default_version_path(home), "/home/u/.nvmd/default");
    assert_eq!(paths::version_list_path(home), "/home/u/.nvmd/versions.json");
    assert_eq!(paths::default_install_dir(home), "/home/u/.nvmd/versions");
}

#[test]
fn debouncer_lets_one_through_per_interval() {
    let mut d = Debouncer::new(300);
    assert!(d.should_emit(300));
    assert!(!d.should_emit(400));
    assert!(!d.should_emit(599));
    assert!(d.should_emit(600));
    assert!(d.should_emit(900));
}

#[test]
fn export_payload_follows_the_flags() {
    let setting = ISettings::template("/home/u");
    let ask = ConfigrationExport {
        color: Some("#123456".to_string()),
        setting: Some(true),
        mirrors: Some("https://nodejs.org/dist".to_string()),
        projects: None,
    };
    let out = export_payload(ask, setting, Some(vec![]), Some(vec![]));
    assert_eq!(out.color, Some("#123456".to_string()));
    assert!(out.setting.is_some());
    assert_eq!(out.mirrors, Some("https://nodejs.org/dist".to_string()));
    assert!(out.projects.is_none());
    assert!(out.groups.is_none());

    let ask = ConfigrationExport {
        color: None,
        setting: None,
        mirrors: Some("m".to_string()),
        projects: Some(true),
    };
    let out = export_payload(ask, ISettings::template("/home/u"), Some(vec![]), None);
    assert!(out.setting.is_none());
    assert!(out.mirrors.is_none());
    assert!(out.projects.is_some());
}

#[test]
fn import_sync_plan_follows_groups() {
    let projects = vec![
        project("a", "/a", Some("18.0.0")),
        project("b", "/b", Some("lts")),
        project("c", "/c", None),
        project("d", "/d", Some("empty-group")),
    ];
    let groups = vec![
        group("lts", &[], Some("20.2.3")),
        group("empty-group", &[], None),
    ];
    let plan = import_sync_plan(&projects, &groups);
    assert_eq!(
        plan,
        vec![
            SyncEntry {
                path: "/a".to_string(),
                version: "18.0.0".to_string()
            },
            SyncEntry {
                path: "/b".to_string(),
                version: "20.2.3".to_string()
            },
        ]
    );
}

#[test]
fn import_summary_carries_the_light_fields() {
    let data = ConfigrationData {
        color: Some("#abc".to_string()),
        setting: None,
        mirrors: Some("m".to_string()),
        projects: Some(vec![]),
        groups: None,
    };
    let summary = import_summary(data);
    assert_eq!(summary.color, Some("#abc".to_string()));
    assert!(summary.setting.is_none());
    assert_eq!(summary.mirrors, Some("m".to_string()));
}
