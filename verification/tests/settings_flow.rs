use kufeditor::game::Game;
use kufeditor::notices::{NoticeCenter, NoticeLevel};
use kufeditor::settings::flow::{
    finish_write, save_error_chain, save_failure_notice, schedule_image, schedule_settings_write,
    CloseRequest,
};
use kufeditor::settings::startup::PersistenceMode;
use kufeditor::settings::store::{
    image_from_runtime, GamePaths, RecentFiles, SettingsImageError, SettingsImageV1,
    SettingsSaveError, DEFAULT_RECENT_FILE_LIMIT,
};
use kufeditor::settings::write_pump::SettingsWritePump;

fn image(game: Game) -> SettingsImageV1 {
    image_from_runtime(
        game,
        &GamePaths::new(),
        &RecentFiles::from_persisted(DEFAULT_RECENT_FILE_LIMIT, Vec::new()),
    )
    .unwrap()
}

#[test]
fn a_queued_image_shows_that_settings_are_being_saved_until_the_write_succeeds() {
    let mut pump = SettingsWritePump::new("/config/settings.json".to_owned(), PersistenceMode::Enabled);
    let mut notices = NoticeCenter::new();
    let mut close = CloseRequest { pending: true, armed: true };
    assert!(schedule_image(&mut pump, &mut notices, &mut close, Ok(image(Game::Heroes))));
    assert_eq!(notices.current().unwrap().summary(), "Saving application settings");
    assert_eq!(close, CloseRequest { pending: true, armed: true });

    let request = pump.take_ready().unwrap();
    finish_write(&mut pump, &mut notices, &mut close, request.complete(Ok(())));
    assert!(notices.current().is_none());
    assert!(pump.is_settled());
}

#[test]
fn a_failed_write_shows_its_error_and_withdraws_the_close_request() {
    let mut pump = SettingsWritePump::new("/config/settings.json".to_owned(), PersistenceMode::Enabled);
    let mut notices = NoticeCenter::new();
    let mut close = CloseRequest { pending: true, armed: true };
    assert!(schedule_image(&mut pump, &mut notices, &mut close, Ok(image(Game::Crusaders))));
    let request = pump.take_ready().unwrap();
    let failure = SettingsSaveError::Persist {
        path: "/config/settings.json".to_owned(),
        detail: "permission denied".to_owned(),
    };
    finish_write(&mut pump, &mut notices, &mut close, request.complete(Err(failure)));
    let shown = notices.current().unwrap();
    assert_eq!(shown.level(), NoticeLevel::Error);
    assert_eq!(shown.summary(), "Could not save application settings");
    assert_eq!(
        shown.detail(),
        "could not replace settings at /config/settings.json\nCaused by: permission denied"
    );
    assert_eq!(close, CloseRequest { pending: false, armed: false });
    assert!(pump.has_failed());
}

#[test]
fn an_obsolete_write_changes_no_notice() {
    let mut pump = SettingsWritePump::new("/config/settings.json".to_owned(), PersistenceMode::Enabled);
    let mut notices = NoticeCenter::new();
    let mut close = CloseRequest { pending: true, armed: false };
    assert!(schedule_image(&mut pump, &mut notices, &mut close, Ok(image(Game::Crusaders))));
    let first = pump.take_ready().unwrap();
    assert!(schedule_image(&mut pump, &mut notices, &mut close, Ok(image(Game::Heroes))));
    let failure = SettingsSaveError::Write {
        path: "/config/settings.json".to_owned(),
        detail: "disk full".to_owned(),
    };
    finish_write(&mut pump, &mut notices, &mut close, first.complete(Err(failure)));
    assert_eq!(notices.current().unwrap().summary(), "Saving application settings");
    assert_eq!(close, CloseRequest { pending: true, armed: false });
}

#[test]
fn a_protected_file_warns_instead_of_saving() {
    let mut pump = SettingsWritePump::new(
        "/config/settings.json".to_owned(),
        PersistenceMode::ProtectedUnsupportedVersion { found: 3 },
    );
    let mut notices = NoticeCenter::new();
    let mut close = CloseRequest { pending: false, armed: false };
    assert!(schedule_image(&mut pump, &mut notices, &mut close, Ok(image(Game::Crusaders))));
    let shown = notices.current().unwrap();
    assert_eq!(shown.level(), NoticeLevel::Warning);
    assert_eq!(
        shown.summary(),
        "Settings version 3 is unsupported; changes will not be saved"
    );
    assert!(pump.take_ready().is_none());
}

#[test]
fn an_unprepared_image_reports_its_error_and_drops_pending_writes() {
    let mut pump = SettingsWritePump::new("/config/settings.json".to_owned(), PersistenceMode::Enabled);
    let mut notices = NoticeCenter::new();
    let mut close = CloseRequest { pending: true, armed: true };
    assert!(schedule_image(&mut pump, &mut notices, &mut close, Ok(image(Game::Crusaders))));
    let error = SettingsImageError::NonUnicodePath {
        field: "crusaders_path",
        path: b"/games/\xfe".to_vec(),
    };
    assert!(!schedule_image(&mut pump, &mut notices, &mut close, Err(error)));
    assert!(pump.take_ready().is_none());
    let shown = notices.current().unwrap();
    assert_eq!(shown.summary(), "Could not prepare application settings");
    assert_eq!(close, CloseRequest { pending: false, armed: false });
}

#[test]
fn save_errors_name_their_stage_and_path() {
    let error = SettingsSaveError::CreateParent {
        path: "/config".to_owned(),
        detail: "read-only file system".to_owned(),
    };
    assert_eq!(
        save_error_chain(&error),
        vec![
            "could not create settings directory /config".to_owned(),
            "read-only file system".to_owned()
        ]
    );
    let serialize = SettingsSaveError::Serialize { detail: "bad value".to_owned() };
    assert_eq!(
        save_failure_notice(&serialize).detail(),
        "could not serialize application settings\nCaused by: bad value"
    );
}

#[test]
fn scheduling_the_runtime_state_reports_a_non_unicode_folder() {
    let mut pump = SettingsWritePump::new("/config/settings.json".to_owned(), PersistenceMode::Enabled);
    let mut notices = NoticeCenter::new();
    let mut close = CloseRequest { pending: true, armed: true };
    let recent = RecentFiles::from_persisted(DEFAULT_RECENT_FILE_LIMIT, Vec::new());
    let mut paths = GamePaths::new();
    paths.set_root(Game::Heroes, Some(b"/games/heroes".to_vec()));
    assert!(schedule_settings_write(&mut pump, &mut notices, &mut close, Game::Heroes, &paths, &recent));
    let request = pump.take_ready().unwrap();
    assert_eq!(request.image().heroes_path.as_deref(), Some("/games/heroes"));

    paths.set_root(Game::Crusaders, Some(b"/games/\xffcrusaders".to_vec()));
    assert!(!schedule_settings_write(&mut pump, &mut notices, &mut close, Game::Heroes, &paths, &recent));
    let shown = notices.current().unwrap();
    assert_eq!(shown.summary(), "Could not prepare application settings");
    assert_eq!(
        shown.detail(),
        "crusaders_path contains a non-Unicode path: /games/\u{fffd}crusaders"
    );
    assert_eq!(close, CloseRequest { pending: false, armed: false });
}
