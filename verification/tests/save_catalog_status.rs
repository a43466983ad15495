use kufeditor::save_catalog_status::{
    SaveCatalogAction, SaveCatalogKey, SaveCatalogRequestID, SaveCatalogSession,
    SaveCatalogStatus,
};

#[test]
fn save_catalog_keys_include_the_request_and_exact_root() {
    let request = SaveCatalogRequestID::from_value(1);
    let key = SaveCatalogKey::new(request, "/games/crusaders");

    assert_eq!(key.request(), request);
    assert_eq!(key.root(), "/games/crusaders");
    assert!(!key.same(&SaveCatalogKey::new(request, "/games/crusaders/../crusaders")));
}

fn key(request: u64, root: &str) -> SaveCatalogKey {
    SaveCatalogKey::new(SaveCatalogRequestID::from_value(request), root)
}

#[test]
fn a_finished_load_is_shown_only_for_its_exact_key() {
    let mut session: SaveCatalogSession<&'static str, String> = SaveCatalogSession::default();
    session.begin(key(1, "/games/crusaders"));
    assert!(!session.finish_ready(key(2, "/games/crusaders"), "other", 0));
    assert!(!session.finish_ready(key(1, "/games/heroes"), "other", 0));
    assert!(matches!(session.status(), SaveCatalogStatus::Loading { .. }));
    assert!(session.finish_ready(key(1, "/games/crusaders"), "names", 2));
    match session.status() {
        SaveCatalogStatus::Ready { key, dictionary, issue_count } => {
            assert_eq!(key.request().get(), 1);
            assert_eq!(*dictionary, "names");
            assert_eq!(*issue_count, 2);
        }
        _ => panic!("the load should be ready"),
    }
}

#[test]
fn hiding_and_showing_the_same_folder_restores_the_catalog() {
    let mut session: SaveCatalogSession<u32, String> = SaveCatalogSession::new();
    session.begin(key(1, "/games/crusaders"));
    assert!(!session.dormant(Some("/games/crusaders")));
    assert!(matches!(session.status(), SaveCatalogStatus::Dormant));
    assert!(session.finish_failed(key(1, "/games/crusaders"), "unreadable".to_owned()));
    assert!(matches!(session.status(), SaveCatalogStatus::Dormant));
    assert!(!session.activate("/games/heroes"));
    assert!(session.activate("/games/crusaders"));
    match session.status() {
        SaveCatalogStatus::Failed { error, .. } => assert_eq!(error, "unreadable"),
        _ => panic!("the retained failure should be shown again"),
    }
}

#[test]
fn another_folder_drops_the_loads_of_the_old_one() {
    let mut session: SaveCatalogSession<u32, String> = SaveCatalogSession::new();
    session.begin(key(1, "/games/crusaders"));
    assert!(session.dormant(Some("/games/heroes")));
    assert!(!session.finish_ready(key(1, "/games/crusaders"), 7, 0));
    assert!(!session.activate("/games/crusaders"));
    session.not_configured();
    assert!(matches!(session.status(), SaveCatalogStatus::NotConfigured));
    assert!(!session.activate("/games/crusaders"));
}

#[test]
fn reconciling_loads_a_folder_once_and_hides_it_when_no_save_is_shown() {
    let mut session: SaveCatalogSession<u32, String> = SaveCatalogSession::new();
    assert_eq!(
        session.reconcile(true, Some("/games/crusaders")),
        SaveCatalogAction::LoadNeeded
    );
    session.begin(key(1, "/games/crusaders"));
    assert_eq!(session.reconcile(true, Some("/games/crusaders")), SaveCatalogAction::Shown);
    assert_eq!(
        session.reconcile(false, Some("/games/crusaders")),
        SaveCatalogAction::Hidden { folder_changed: false }
    );
    assert_eq!(session.reconcile(true, Some("/games/crusaders")), SaveCatalogAction::Shown);
    assert_eq!(
        session.reconcile(false, Some("/games/other")),
        SaveCatalogAction::Hidden { folder_changed: true }
    );
    assert_eq!(session.reconcile(true, None), SaveCatalogAction::NotConfigured);
    assert!(matches!(session.status(), SaveCatalogStatus::NotConfigured));
}

#[test]
fn keys_compare_folders_as_paths() {
    let request = SaveCatalogRequestID::from_value(3);
    let key = SaveCatalogKey::new(request, "/games/crusaders");
    assert!(key.same(&SaveCatalogKey::new(request, "/games/crusaders/")));
    assert!(key.same(&SaveCatalogKey::new(request, "/games//crusaders")));
    assert!(!key.same(&SaveCatalogKey::new(SaveCatalogRequestID::from_value(4), "/games/crusaders")));

    let mut session: SaveCatalogSession<u32, String> = SaveCatalogSession::new();
    session.begin(SaveCatalogKey::new(request, "/games/crusaders"));
    assert!(!session.dormant(Some("/games/crusaders/")));
    assert!(session.activate("/games/crusaders"));
}
