use kufeditor::settings::messages::load_error_message;
use kufeditor::settings::startup::SettingsStartupWarning;
use kufeditor::settings::store::{SettingsLoadError, MAX_SETTINGS_BYTES};

#[test]
fn load_failures_name_the_file_and_the_limit() {
    assert_eq!(
        load_error_message(&SettingsLoadError::Read {
            path: "/config/settings.json".to_owned(),
            detail: "permission denied".to_owned()
        }),
        "could not read /config/settings.json"
    );
    assert_eq!(
        load_error_message(&SettingsLoadError::TooLarge {
            path: "/config/settings.json".to_owned(),
            max_bytes: MAX_SETTINGS_BYTES
        }),
        "/config/settings.json is larger than the 1048576-byte settings limit"
    );
    assert_eq!(
        load_error_message(&SettingsLoadError::UnsupportedVersion { found: 2 }),
        "settings version 2 is not supported"
    );
}

#[test]
fn startup_warnings_explain_themselves() {
    assert_eq!(
        SettingsStartupWarning::UnsupportedVersion { found: 4 }.message(),
        "settings version 4 is newer than this application supports"
    );
    assert_eq!(
        SettingsStartupWarning::Load(SettingsLoadError::UnsupportedVersion { found: 9 }).message(),
        "application settings could not be loaded"
    );
}
