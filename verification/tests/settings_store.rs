use kufeditor::game::Game;
use kufeditor::settings::startup::{PersistenceMode, SettingsStartup, SettingsStartupWarning};
use kufeditor::settings::store::{
    DEFAULT_RECENT_FILE_LIMIT, GamePaths, MAX_SETTINGS_BYTES, RecentFiles, SettingsGame,
    SettingsImageError, SettingsImageV1, SettingsLoadError, check_settings_document,
    image_from_runtime, settings_version_verdict, unicode_path, version_one,
};

#[test]
fn exactly_one_mebibyte_is_accepted() {
    let mut input = b"{}".to_vec();
    input.resize(usize::try_from(MAX_SETTINGS_BYTES).unwrap(), b' ');

    assert!(check_settings_document("settings.json", &input).is_ok());
}

#[test]
fn one_byte_over_one_mebibyte_is_rejected_before_json_parsing() {
    let input = vec![b' '; usize::try_from(MAX_SETTINGS_BYTES).unwrap() + 1];

    assert!(matches!(
        check_settings_document("settings.json", &input),
        Err(SettingsLoadError::TooLarge {
            path,
            max_bytes: MAX_SETTINGS_BYTES,
        }) if path == "settings.json"
    ));
}

#[test]
fn version_two_is_rejected_before_version_one_fields_are_read() {
    for input in [
        br#"{"version":2,"active_game":"heroes","max_recent_files":10}"#.as_slice(),
        br#"{"version":2,"active_game":{"invalid":true}}"#.as_slice(),
    ] {
        assert!(matches!(
            check_settings_document("settings.json", input),
            Err(SettingsLoadError::UnsupportedVersion { found: 2 })
        ));
    }
}

#[test]
fn malformed_json_keeps_the_json_error() {
    assert!(matches!(
        check_settings_document("/cfg/settings.json", br#"{"version":1"#),
        Err(SettingsLoadError::Json { path, .. }) if path == "/cfg/settings.json"
    ));
}

#[test]
fn documents_without_a_numeric_version_are_read_as_version_one() {
    for input in [
        b"{}".as_slice(),
        br#"{"version":1,"active_game":"crusaders","future_setting":true}"#.as_slice(),
        br#"{"version":"2"}"#.as_slice(),
        br#"[1, 2]"#.as_slice(),
    ] {
        assert!(check_settings_document("settings.json", input).is_ok());
    }
    assert!(matches!(
        check_settings_document("settings.json", br#"{"version":0}"#),
        Err(SettingsLoadError::UnsupportedVersion { found: 0 })
    ));
    assert!(settings_version_verdict("settings.json", Ok(Some(1))).is_ok());
    assert!(settings_version_verdict("settings.json", Ok(None)).is_ok());
}

#[test]
fn a_non_unicode_runtime_path_is_rejected_without_lossy_conversion() {
    let path = vec![b'/', 0xff, b'x'];
    let mut paths = GamePaths::new();
    paths.set_root(Game::Crusaders, Some(path.clone()));

    let error = image_from_runtime(
        Game::Crusaders,
        &paths,
        &RecentFiles::from_persisted(DEFAULT_RECENT_FILE_LIMIT, Vec::new()),
    )
    .unwrap_err();

    assert!(matches!(
        error,
        SettingsImageError::NonUnicodePath {
            field: "crusaders_path",
            path: error_path,
        } if error_path == path
    ));
}

#[test]
fn the_first_invalid_recent_file_is_reported() {
    let recent = RecentFiles::from_persisted(
        3,
        vec![b"/a".to_vec(), vec![0xc3], vec![0xff], b"/b".to_vec()],
    );
    let error = image_from_runtime(Game::Heroes, &GamePaths::new(), &recent).unwrap_err();
    assert!(matches!(
        error,
        SettingsImageError::NonUnicodePath { field: "recent_files", path } if path == vec![0xc3]
    ));
}

#[test]
fn runtime_state_becomes_a_complete_version_one_image() {
    let mut paths = GamePaths::new();
    paths.set_root(Game::Heroes, Some("/games/Heroes".as_bytes().to_vec()));
    let recent = RecentFiles::from_persisted(10, vec!["/files/first.sox".as_bytes().to_vec()]);
    let image = image_from_runtime(Game::Heroes, &paths, &recent).unwrap();

    assert_eq!(image.version, version_one());
    assert_eq!(image.active_game, SettingsGame::Heroes);
    assert_eq!(image.crusaders_path, None);
    assert_eq!(image.heroes_path.as_deref(), Some("/games/Heroes"));
    assert_eq!(image.max_recent_files, 10);
    assert_eq!(image.recent_files, vec!["/files/first.sox".to_owned()]);

    let (game, paths, recent) = image.into_runtime();
    assert_eq!(game, Game::Heroes);
    assert_eq!(paths.root(Game::Heroes), Some(&b"/games/Heroes".to_vec()));
    assert_eq!(paths.root(Game::Crusaders), None);
    assert_eq!(recent.limit(), 10);
    assert_eq!(recent.paths(), &vec![b"/files/first.sox".to_vec()]);
}

#[test]
fn unicode_path_keeps_absent_paths_absent() {
    assert!(matches!(unicode_path("heroes_path", None), Ok(None)));
    let path = "/é".as_bytes().to_vec();
    assert!(matches!(unicode_path("heroes_path", Some(&path)), Ok(Some(text)) if text == "/é"));
}

#[test]
fn missing_settings_start_with_defaults_and_enabled_persistence() {
    let startup = SettingsStartup::from_load_result("dir/settings.json".to_owned(), Ok(None));

    assert_eq!(startup.path, "dir/settings.json");
    assert_eq!(startup.active_game, Game::Crusaders);
    assert_eq!(startup.game_paths.root(Game::Crusaders), None);
    assert_eq!(startup.game_paths.root(Game::Heroes), None);
    assert_eq!(startup.recent_files.limit(), DEFAULT_RECENT_FILE_LIMIT);
    assert!(startup.recent_files.paths().is_empty());
    assert_eq!(startup.persistence, PersistenceMode::Enabled);
    assert!(startup.warning.is_none());
}

#[test]
fn malformed_settings_start_with_defaults_and_a_load_warning() {
    let loaded = check_settings_document("settings.json", b"{").map(|()| None);
    let startup = SettingsStartup::from_load_result("settings.json".to_owned(), loaded);

    assert_eq!(startup.active_game, Game::Crusaders);
    assert_eq!(startup.persistence, PersistenceMode::Enabled);
    assert!(matches!(
        startup.warning,
        Some(SettingsStartupWarning::Load(SettingsLoadError::Json { .. }))
    ));
}

#[test]
fn a_future_version_protects_the_source_file_for_the_session() {
    let loaded = check_settings_document(
        "settings.json",
        br#"{"version":2,"active_game":{"invalid":true}}"#,
    )
    .map(|()| None);
    let startup = SettingsStartup::from_load_result("settings.json".to_owned(), loaded);

    assert_eq!(startup.active_game, Game::Crusaders);
    assert_eq!(
        startup.persistence,
        PersistenceMode::ProtectedUnsupportedVersion { found: 2 }
    );
    assert!(matches!(
        startup.warning,
        Some(SettingsStartupWarning::UnsupportedVersion { found: 2 })
    ));
}

#[test]
fn a_loaded_image_sets_the_startup_state() {
    let mut image = SettingsImageV1::default();
    image.active_game = SettingsGame::Heroes;
    image.crusaders_path = Some("/games/Crusaders".to_owned());
    image.max_recent_files = 15;
    let startup = SettingsStartup::from_load_result("settings.json".to_owned(), Ok(Some(image)));
    assert_eq!(startup.active_game, Game::Heroes);
    assert_eq!(
        startup.game_paths.root(Game::Crusaders),
        Some(&b"/games/Crusaders".to_vec())
    );
    assert_eq!(startup.recent_files.limit(), 15);
    assert_eq!(startup.persistence, PersistenceMode::Enabled);
    assert!(startup.warning.is_none());
}
