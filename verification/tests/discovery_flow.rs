use kufeditor::discovery_flow::{
    DiscoveryFinish, DiscoveryStep, DiscoveryUpdate, DiscoveryWriteFollowup, discovery_step,
    discovery_write_followup,
};
use kufeditor::game::Game;
use kufeditor::notices::NoticeLevel;

fn ready(changed_games: Vec<Game>, installation_count: usize, issue_count: usize) -> DiscoveryFinish {
    DiscoveryFinish::Ready(DiscoveryUpdate { changed_games, installation_count, issue_count })
}

#[test]
fn a_request_the_shell_no_longer_accepts_is_ignored() {
    let step = discovery_step(false, &ready(vec![Game::Heroes], 1, 0), &None, Game::Heroes);
    assert!(matches!(step, DiscoveryStep::Ignore));
    let step = discovery_step(true, &DiscoveryFinish::Stale, &None, Game::Heroes);
    assert!(matches!(step, DiscoveryStep::Ignore));
}

#[test]
fn a_failed_discovery_reports_its_error_chain() {
    let chain = vec!["steam library unreadable".to_owned(), "permission denied".to_owned()];
    match discovery_step(true, &DiscoveryFinish::Failed, &Some(chain), Game::Crusaders) {
        DiscoveryStep::ReportFailure(Some(notice)) => {
            assert_eq!(notice.level(), NoticeLevel::Error);
            assert_eq!(notice.summary(), "Could not detect Steam installations");
            assert!(notice.detail().contains("permission denied"));
        }
        other => panic!("unexpected step {other:?}"),
    }
    assert!(matches!(
        discovery_step(true, &DiscoveryFinish::Failed, &None, Game::Crusaders),
        DiscoveryStep::ReportFailure(None)
    ));
}

#[test]
fn a_ready_discovery_writes_settings_only_when_roots_changed() {
    match discovery_step(true, &ready(vec![Game::Heroes], 2, 1), &None, Game::Crusaders) {
        DiscoveryStep::Apply { write_settings, active_changed, notice } => {
            assert!(write_settings);
            assert!(!active_changed);
            assert_eq!(notice.unwrap().summary(), "Found Steam installations with 1 issue");
        }
        other => panic!("unexpected step {other:?}"),
    }
    match discovery_step(true, &ready(vec![Game::Crusaders, Game::Heroes], 2, 0), &None, Game::Heroes) {
        DiscoveryStep::Apply { write_settings, active_changed, notice } => {
            assert!(write_settings);
            assert!(active_changed);
            assert!(notice.is_none());
        }
        other => panic!("unexpected step {other:?}"),
    }
    match discovery_step(true, &ready(Vec::new(), 0, 0), &None, Game::Heroes) {
        DiscoveryStep::Apply { write_settings, active_changed, notice } => {
            assert!(!write_settings);
            assert!(!active_changed);
            assert_eq!(notice.unwrap().summary(), "No Steam installations were found");
        }
        other => panic!("unexpected step {other:?}"),
    }
}

#[test]
fn an_unscheduled_write_rolls_the_roots_back() {
    assert_eq!(discovery_write_followup(false, true), DiscoveryWriteFollowup::RollBack);
    assert_eq!(discovery_write_followup(false, false), DiscoveryWriteFollowup::RollBack);
    assert_eq!(discovery_write_followup(true, true), DiscoveryWriteFollowup::ReloadCatalog);
    assert_eq!(discovery_write_followup(true, false), DiscoveryWriteFollowup::KeepCatalog);
}
