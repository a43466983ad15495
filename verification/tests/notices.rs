use std::{error::Error, fmt};

use kufeditor::game::Game;
use kufeditor::notices::{Notice, NoticeCenter, NoticeLevel, NoticeSource, format_error};

#[test]
fn only_the_current_identity_can_complete_a_source_slot() {
    let mut center = NoticeCenter::default();
    center.begin(
        NoticeSource::SettingsWrite,
        1,
        Notice::plain(NoticeLevel::Error, "first"),
    );
    center.begin(NoticeSource::SettingsWrite, 2, Notice::info("second"));

    assert!(!center.complete(NoticeSource::SettingsWrite, 1, None));
    assert_eq!(center.current().map(Notice::summary), Some("second"));
    assert!(center.complete(NoticeSource::SettingsWrite, 2, None));
    assert!(center.current().is_none());
}

#[test]
fn a_stale_external_completion_cannot_clear_a_local_replacement() {
    let mut center = NoticeCenter::default();
    center.begin(NoticeSource::Workspace, 0, Notice::info("external request"));
    center.replace(
        NoticeSource::Workspace,
        Notice::plain(NoticeLevel::Error, "local replacement"),
    );

    assert!(!center.complete(NoticeSource::Workspace, 0, None));
    assert_eq!(
        center.current().map(Notice::summary),
        Some("local replacement")
    );
}

#[test]
fn canceling_a_pending_notice_restores_the_suspended_external_identity() {
    let mut center = NoticeCenter::default();
    center.begin(NoticeSource::Workspace, 7, Notice::info("Saving document"));
    center.begin_pending(NoticeSource::Workspace, 8);

    assert!(center.cancel(NoticeSource::Workspace, 8));
    assert!(center.complete(
        NoticeSource::Workspace,
        7,
        Some(Notice::success("Saved document")),
    ));
    assert_eq!(
        center.current().map(Notice::summary),
        Some("Saved document")
    );
}

#[test]
fn completion_updates_a_suspended_notice_through_nested_pending_cancellation() {
    let cases = [
        (
            Some(Notice::success("Saved document")),
            Notice::success("other success"),
            "Saved document",
            Some("Saved document"),
        ),
        (
            Some(Notice::plain(NoticeLevel::Error, "Could not save document")),
            Notice::plain(NoticeLevel::Error, "other error"),
            "Could not save document",
            Some("Could not save document"),
        ),
        (None, Notice::info("other info"), "other info", None),
    ];

    for (completion, competing_notice, expected, restored) in cases {
        let mut center = NoticeCenter::default();
        center.begin(NoticeSource::Workspace, 7, Notice::info("Saving document"));
        center.begin_pending(NoticeSource::Workspace, 8);
        center.begin_pending(NoticeSource::Workspace, 9);
        center.replace(NoticeSource::Editor, competing_notice);

        assert!(!center.complete(
            NoticeSource::Workspace,
            6,
            Some(Notice::plain(NoticeLevel::Error, "stale completion")),
        ));
        assert!(center.complete(NoticeSource::Workspace, 7, completion));
        assert_eq!(center.current().map(Notice::summary), Some(expected));

        assert!(center.cancel(NoticeSource::Workspace, 9));
        assert_eq!(center.current().map(Notice::summary), Some(expected));
        assert!(center.cancel(NoticeSource::Workspace, 8));
        assert_eq!(center.current().map(Notice::summary), Some(expected));
        center.clear(NoticeSource::Editor);
        assert_eq!(center.current().map(Notice::summary), restored);
    }
}

#[test]
fn current_notice_uses_level_priority_then_newest_sequence() {
    let mut center = NoticeCenter::default();
    center.replace(NoticeSource::Workspace, Notice::info("info"));
    center.replace(NoticeSource::Editor, Notice::success("success"));
    center.replace(
        NoticeSource::Startup,
        Notice::plain(NoticeLevel::Warning, "warning"),
    );
    center.replace(
        NoticeSource::SettingsWrite,
        Notice::plain(NoticeLevel::Error, "older error"),
    );
    center.replace(
        NoticeSource::Open,
        Notice::plain(NoticeLevel::Error, "newer error"),
    );

    assert_eq!(center.current().map(Notice::summary), Some("newer error"));
    center.clear(NoticeSource::Open);
    assert_eq!(center.current().map(Notice::summary), Some("older error"));
    center.clear(NoticeSource::SettingsWrite);
    assert_eq!(center.current().map(Notice::summary), Some("warning"));
    center.clear(NoticeSource::Startup);
    assert_eq!(center.current().map(Notice::summary), Some("success"));
    center.clear(NoticeSource::Editor);
    assert_eq!(center.current().map(Notice::summary), Some("info"));
}

#[test]
fn browse_slots_are_independent_per_game() {
    let mut center = NoticeCenter::default();
    center.begin(
        NoticeSource::Browse(Game::Crusaders),
        7,
        Notice::info("crusaders"),
    );
    center.begin(
        NoticeSource::Browse(Game::Heroes),
        7,
        Notice::plain(NoticeLevel::Warning, "heroes"),
    );

    assert!(center.complete(
        NoticeSource::Browse(Game::Crusaders),
        7,
        Some(Notice::success("crusaders complete")),
    ));
    assert_eq!(center.current().map(Notice::summary), Some("heroes"));
    center.clear(NoticeSource::Browse(Game::Heroes));
    assert_eq!(
        center.current().map(Notice::summary),
        Some("crusaders complete")
    );
}

#[derive(Debug)]
struct OuterError {
    source: std::io::Error,
}

impl fmt::Display for OuterError {
    fn fmt(&self, formatter: &mut fmt::Formatter<'_>) -> fmt::Result {
        formatter.write_str("outer failure")
    }
}

impl Error for OuterError {
    fn source(&self) -> Option<&(dyn Error + 'static)> {
        Some(&self.source)
    }
}

/// The messages of an error and of every source below it.
fn chain(error: &dyn Error) -> Vec<String> {
    let mut messages = vec![error.to_string()];
    let mut source = error.source();
    while let Some(cause) = source {
        messages.push(cause.to_string());
        source = cause.source();
    }
    messages
}

#[test]
fn error_notices_keep_complete_source_chains_for_one_or_many_failures() {
    let first = OuterError {
        source: std::io::Error::other("first cause"),
    };
    let second = OuterError {
        source: std::io::Error::other("second cause"),
    };

    let single = Notice::error("single", &chain(&first));
    assert_eq!(single.detail(), "outer failure\nCaused by: first cause");

    let batch = Notice::error_lines(
        "batch",
        &vec![
            ("one".to_owned(), chain(&first)),
            ("two".to_owned(), chain(&second)),
        ],
    );
    assert_eq!(
        batch.detail(),
        "one: outer failure\nCaused by: first cause\ntwo: outer failure\nCaused by: second cause"
    );
}

#[test]
fn a_pending_owner_on_an_empty_slot_shows_nothing_until_completed() {
    let mut center = NoticeCenter::new();
    center.begin_pending(NoticeSource::Discovery, 3);
    assert!(center.current().is_none());
    assert!(!center.cancel(NoticeSource::Discovery, 4));
    assert!(center.complete(
        NoticeSource::Discovery,
        3,
        Some(Notice::plain(NoticeLevel::Warning, "no installations")),
    ));
    assert_eq!(center.current().map(Notice::level), Some(NoticeLevel::Warning));
    assert!(center.cancel(NoticeSource::Discovery, 3));
    assert!(center.current().is_none());
}

#[test]
fn completing_a_suspended_owner_drops_the_owners_below_it() {
    let mut center = NoticeCenter::new();
    center.begin(NoticeSource::Catalog, 1, Notice::info("first"));
    center.begin_pending(NoticeSource::Catalog, 2);
    center.begin_pending(NoticeSource::Catalog, 3);
    assert!(center.complete(NoticeSource::Catalog, 2, Some(Notice::info("second done"))));
    assert_eq!(center.current().map(Notice::summary), Some("second done"));
    assert!(!center.complete(NoticeSource::Catalog, 1, None));
    assert!(center.cancel(NoticeSource::Catalog, 3));
    assert_eq!(center.current().map(Notice::summary), Some("second done"));
    assert!(center.complete(NoticeSource::Catalog, 2, None));
    assert!(center.current().is_none());
}

#[test]
fn editor_notices_are_editor_feedback_and_error_details_join_causes() {
    let info = Notice::editor_info("edited");
    assert!(info.is_editor_feedback());
    assert_eq!(info.level(), NoticeLevel::Info);
    assert_eq!(info.detail(), "");
    let error = Notice::editor_error("failed", &vec!["a".to_owned(), "b".to_owned(), "c".to_owned()]);
    assert!(error.is_editor_feedback());
    assert_eq!(error.detail(), "a\nCaused by: b\nCaused by: c");
    assert!(!Notice::info("x").is_editor_feedback());
    assert_eq!(format_error(&Vec::new()), "");
}

#[test]
fn canceling_a_request_that_does_not_own_the_slot_changes_nothing() {
    let mut center = NoticeCenter::default();
    center.begin(NoticeSource::Workspace, 7, Notice::info("Saving document"));
    center.begin_pending(NoticeSource::Workspace, 8);

    assert!(!center.cancel(NoticeSource::Workspace, 7));
    assert!(!center.cancel(NoticeSource::Editor, 8));
    assert_eq!(
        center.current().map(Notice::summary),
        Some("Saving document")
    );
    assert!(center.cancel(NoticeSource::Workspace, 8));
    assert!(!center.cancel(NoticeSource::Workspace, 8));
    assert!(center.cancel(NoticeSource::Workspace, 7));
    assert!(center.current().is_none());
}
