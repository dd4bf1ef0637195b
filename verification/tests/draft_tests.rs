//! The draft wrapper: readers keep seeing committed data while a
//! draft is edited, until it is applied or discarded.

use nvmd::draft::Draft;
use nvmd::settings::ISettings;

#[test]
fn test_draft() {
    let settings = ISettings {
        enable_silent_start: Some(true),
        no_proxy: Some(false),
        ..ISettings::default()
    };

    println!("{:?}", settings);

    let mut draft = Draft::from_data(settings);

    assert_eq!(draft.data().enable_silent_start, Some(true));
    assert_eq!(draft.data().no_proxy, Some(false));

    let d = draft.draft();
    d.enable_silent_start = Some(false);
    d.no_proxy = Some(true);

    assert_eq!(draft.data().enable_silent_start, Some(true));
    assert_eq!(draft.data().no_proxy, Some(false));

    assert_eq!(draft.draft().enable_silent_start, Some(false));
    assert_eq!(draft.draft().no_proxy, Some(true));

    assert_eq!(draft.latest().enable_silent_start, Some(false));
    assert_eq!(draft.latest().no_proxy, Some(true));

    assert!(draft.apply().is_some());
    assert!(draft.apply().is_none());

    assert_eq!(draft.data().enable_silent_start, Some(false));
    assert_eq!(draft.data().no_proxy, Some(true));

    assert_eq!(draft.draft().enable_silent_start, Some(false));
    assert_eq!(draft.draft().no_proxy, Some(true));
}

#[test]
fn discard_drops_the_draft() {
    let mut draft = Draft::from_data(ISettings {
        locale: Some("en".to_string()),
        ..ISettings::default()
    });
    draft.draft().locale = Some("zh-CN".to_string());
    assert_eq!(draft.latest().locale, Some("zh-CN".to_string()));
    let dropped = draft.discard();
    assert_eq!(dropped.unwrap().locale, Some("zh-CN".to_string()));
    assert_eq!(draft.latest().locale, Some("en".to_string()));
    assert!(draft.discard().is_none());
}
