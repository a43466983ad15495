use kufeditor::notices::NoticeLevel;
use kufeditor::settings::store::SettingsImageError;
use kufeditor::work_notices::{
    catalog_load_notice, discovery_notice, image_error_message, image_error_notice,
    protected_settings_notice,
};

#[test]
fn catalog_loads_warn_only_about_issues() {
    assert!(catalog_load_notice(0).is_none());
    let one = catalog_load_notice(1).unwrap();
    assert_eq!(one.level(), NoticeLevel::Warning);
    assert_eq!(one.summary(), "Loaded game catalogs with 1 issue");
    let many = catalog_load_notice(12).unwrap();
    assert_eq!(many.summary(), "Loaded game catalogs with 12 issues");
    assert_eq!(many.detail(), "");
}

#[test]
fn discovery_warns_when_nothing_or_something_troubled_was_found() {
    let none = discovery_notice(0, 3).unwrap();
    assert_eq!(none.level(), NoticeLevel::Warning);
    assert_eq!(none.summary(), "No Steam installations were found");
    let issues = discovery_notice(2, 1).unwrap();
    assert_eq!(issues.summary(), "Found Steam installations with 1 issue");
    assert_eq!(discovery_notice(2, 5).unwrap().summary(), "Found Steam installations with 5 issues");
    assert!(discovery_notice(2, 0).is_none());
}

#[test]
fn a_protected_settings_file_is_named_by_its_version() {
    let notice = protected_settings_notice(2);
    assert_eq!(notice.level(), NoticeLevel::Warning);
    assert_eq!(
        notice.summary(),
        "Settings version 2 is unsupported; changes will not be saved"
    );
    assert_eq!(
        protected_settings_notice(u64::MAX).summary(),
        "Settings version 18446744073709551615 is unsupported; changes will not be saved"
    );
}

#[test]
fn image_errors_show_the_field_and_the_path_lossily() {
    let error = SettingsImageError::NonUnicodePath {
        field: "heroes_path",
        path: b"/games/\xffheroes".to_vec(),
    };
    assert_eq!(
        image_error_message(&error),
        "heroes_path contains a non-Unicode path: /games/\u{fffd}heroes"
    );
    let notice = image_error_notice(&error);
    assert_eq!(notice.level(), NoticeLevel::Error);
    assert_eq!(notice.summary(), "Could not prepare application settings");
    assert_eq!(
        notice.detail(),
        "heroes_path contains a non-Unicode path: /games/\u{fffd}heroes"
    );
}
