use kufeditor::game::Game;
use kufeditor::settings::startup::PersistenceMode;
use kufeditor::settings::store::{
    DEFAULT_RECENT_FILE_LIMIT, GamePaths, RecentFiles, SettingsImageV1, SettingsSaveError,
    image_from_runtime,
};
use kufeditor::settings::write_pump::{
    SettingsQueueResult, SettingsRevision, SettingsWriteCompletion, SettingsWritePump,
    SettingsWriteRequest,
};

fn image(game: Game) -> SettingsImageV1 {
    image_from_runtime(
        game,
        &GamePaths::new(),
        &RecentFiles::from_persisted(DEFAULT_RECENT_FILE_LIMIT, Vec::new()),
    )
    .unwrap()
}

fn successful(request: SettingsWriteRequest) -> SettingsWriteCompletion {
    request.complete(Ok(()))
}

fn failed(request: SettingsWriteRequest) -> SettingsWriteCompletion {
    request.complete(Err(SettingsSaveError::Write {
        path: "settings.json".to_owned(),
        detail: "fixture failure".to_owned(),
    }))
}

#[test]
fn pending_images_coalesce_while_one_write_is_in_flight() {
    let mut pump = SettingsWritePump::new("settings.json".to_owned(), PersistenceMode::Enabled);
    assert!(matches!(
        pump.queue(image(Game::Crusaders)),
        SettingsQueueResult::Queued(SettingsRevision(1))
    ));
    let first = pump.take_ready().unwrap();

    assert!(matches!(
        pump.queue(image(Game::Heroes)),
        SettingsQueueResult::Queued(SettingsRevision(2))
    ));
    assert!(matches!(
        pump.queue(image(Game::Crusaders)),
        SettingsQueueResult::Queued(SettingsRevision(3))
    ));
    assert!(pump.take_ready().is_none());

    let finish = pump.finish(successful(first));
    assert_eq!(finish.revision, SettingsRevision(1));
    assert!(!finish.is_latest);
    assert!(finish.result.is_ok());
    assert_eq!(pump.take_ready().unwrap().revision(), SettingsRevision(3));
}

#[test]
fn a_latest_failure_is_retained_and_retried_as_a_newer_revision() {
    let mut pump = SettingsWritePump::new("settings.json".to_owned(), PersistenceMode::Enabled);
    pump.queue(image(Game::Crusaders));
    let first = pump.take_ready().unwrap();

    let finish = pump.finish(failed(first));
    assert!(finish.is_latest);
    assert!(finish.result.is_err());
    assert!(pump.has_failed());
    assert_eq!(pump.retry_failed(), Some(SettingsRevision(2)));
    assert!(!pump.has_failed());
    assert_eq!(pump.take_ready().unwrap().revision(), SettingsRevision(2));
}

#[test]
fn a_new_image_discards_an_obsolete_retained_failure() {
    let mut pump = SettingsWritePump::new("settings.json".to_owned(), PersistenceMode::Enabled);
    pump.queue(image(Game::Crusaders));
    let first = pump.take_ready().unwrap();
    pump.finish(failed(first));
    assert!(pump.has_failed());

    assert!(matches!(
        pump.queue(image(Game::Heroes)),
        SettingsQueueResult::Queued(SettingsRevision(2))
    ));
    assert!(!pump.has_failed());
    assert_eq!(pump.take_ready().unwrap().revision(), SettingsRevision(2));
}

#[test]
fn invalid_runtime_state_discards_obsolete_in_flight_and_retained_images() {
    let mut pump = SettingsWritePump::new("settings.json".to_owned(), PersistenceMode::Enabled);
    pump.queue(image(Game::Crusaders));
    let in_flight = pump.take_ready().unwrap();

    pump.discard_obsolete();
    let finish = pump.finish(failed(in_flight));

    assert!(!finish.is_latest);
    assert!(!pump.has_failed());
    assert!(pump.is_settled());

    pump.queue(image(Game::Heroes));
    let latest = pump.take_ready().unwrap();
    pump.finish(failed(latest));
    assert!(pump.has_failed());

    pump.discard_obsolete();

    assert!(!pump.has_failed());
    assert!(pump.is_settled());
}

#[test]
fn protected_mode_never_creates_a_write_request_and_is_settled() {
    let mode = PersistenceMode::ProtectedUnsupportedVersion { found: 2 };
    let mut pump = SettingsWritePump::new("settings.json".to_owned(), mode);

    assert!(matches!(
        pump.queue(image(Game::Crusaders)),
        SettingsQueueResult::Protected(SettingsRevision(1))
    ));
    assert!(pump.take_ready().is_none());
    assert!(pump.is_settled());
    assert_eq!(pump.mode(), &mode);
}

#[test]
fn only_the_latest_completion_is_notice_relevant() {
    let mut pump = SettingsWritePump::new("settings.json".to_owned(), PersistenceMode::Enabled);
    pump.queue(image(Game::Crusaders));
    let first = pump.take_ready().unwrap();
    pump.queue(image(Game::Heroes));

    assert!(!pump.finish(successful(first)).is_latest);

    let latest = pump.take_ready().unwrap();
    assert!(pump.finish(successful(latest)).is_latest);
    assert!(pump.is_settled());
}

#[test]
fn close_settlement_tracks_pending_in_flight_failure_retry_and_discard() {
    let mut pump = SettingsWritePump::new("settings.json".to_owned(), PersistenceMode::Enabled);
    pump.queue(image(Game::Crusaders));
    assert!(!pump.is_settled());

    let first = pump.take_ready().unwrap();
    assert!(!pump.is_settled());
    pump.queue(image(Game::Heroes));
    assert!(!pump.is_settled());
    pump.finish(successful(first));
    assert!(!pump.is_settled());

    let latest = pump.take_ready().unwrap();
    pump.finish(failed(latest));
    assert!(pump.has_failed());
    assert!(!pump.is_settled());

    assert_eq!(pump.retry_failed(), Some(SettingsRevision(3)));
    assert!(!pump.is_settled());
    let retry = pump.take_ready().unwrap();
    pump.finish(failed(retry));
    assert!(pump.has_failed());

    assert!(pump.discard_failed());
    assert!(pump.is_settled());
    assert!(!pump.discard_failed());
}

#[test]
fn a_request_carries_the_pump_path_and_the_queued_image() {
    let mut pump = SettingsWritePump::new("/cfg/settings.json".to_owned(), PersistenceMode::Enabled);
    pump.queue(image(Game::Heroes));
    assert_eq!(pump.latest_revision_for_test(), Some(SettingsRevision(1)));
    let request = pump.take_ready().unwrap();
    assert_eq!(request.path(), "/cfg/settings.json");
    assert_eq!(request.revision().get(), 1);
    assert_eq!(request.image().active_game.game(), Game::Heroes);
}

#[test]
fn an_obsolete_failure_is_not_retained_and_nothing_stays_in_flight() {
    let mut pump = SettingsWritePump::new("settings.json".to_owned(), PersistenceMode::Enabled);
    pump.queue(image(Game::Crusaders));
    let first = pump.take_ready().unwrap();
    assert!(matches!(
        pump.queue(image(Game::Heroes)),
        SettingsQueueResult::Queued(SettingsRevision(2))
    ));

    let finish = pump.finish(failed(first));
    assert!(!finish.is_latest);
    assert!(finish.result.is_err());
    assert!(!pump.has_failed());

    let second = pump.take_ready().unwrap();
    assert_eq!(second.revision(), SettingsRevision(2));
    assert!(pump.finish(failed(second)).is_latest);
    assert!(pump.has_failed());
    assert!(pump.take_ready().is_none());
    assert!(matches!(
        pump.queue(image(Game::Heroes)),
        SettingsQueueResult::Queued(SettingsRevision(3))
    ));
    assert!(!pump.has_failed());
}
