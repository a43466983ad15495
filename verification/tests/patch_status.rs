use kufeditor::game::Game;
use kufeditor::patch_status::{
    BackupStatus, ExecutablePatchState, FireRatePresetID, FireRateStatus, PatchContextChange,
    PatchFinish, PatchID, PatchInspectionPhase, PatchOperation, PatchPresentationState,
    PatchSnapshot, PatchStatus, PatchTarget,
};

#[test]
fn inspection_keys_capture_the_exact_context_and_reject_late_results() {
    let mut state =
        PatchPresentationState::new(Game::Crusaders, Some("/games/crusaders".to_owned()), 3);
    let key = state.begin_inspection().expect("configured Crusaders root");
    assert_eq!(key.request().get(), 1);
    assert_eq!(key.root(), Some("/games/crusaders"));
    assert_eq!(key.root_revision(), 3);
    assert_eq!(state.root_revision(), 3);
    assert!(state.finish_inspection(key.duplicate(), Ok(snapshot())));
    assert!(matches!(state.phase(), PatchInspectionPhase::Ready { .. }));

    assert_eq!(
        state.set_context(
            Game::Crusaders,
            Some("/games/crusaders-new".to_owned()),
            4,
        ),
        PatchContextChange::Changed,
    );
    assert!(matches!(state.phase(), PatchInspectionPhase::Idle));
    assert!(!state.finish_inspection(key, Ok(snapshot())));
    assert_eq!(
        state.set_context(
            Game::Crusaders,
            Some("/games/crusaders-new".to_owned()),
            4,
        ),
        PatchContextChange::Unchanged,
    );

    state.set_context(Game::Heroes, Some("/games/heroes".to_owned()), 1);
    assert!(state.begin_inspection().is_none());
    state.set_context(Game::Crusaders, None, 5);
    assert!(state.begin_inspection().is_none());
}

#[test]
fn confirmations_hold_stable_targets_and_one_operation_owns_all_contexts() {
    let mut state = ready_state();
    let operation = PatchOperation::SetPatch {
        id: PatchID::DebugMenu,
        target: PatchTarget::Applied,
    };
    assert!(state.request_operation(operation));
    let confirmation = state.pending_confirmation().expect("pending confirmation");
    assert_eq!(confirmation.executable(), "/games/crusaders/Kuf2Main.exe");
    assert_eq!(confirmation.backup(), "/games/crusaders/Kuf2Main.exe.bak");
    assert_eq!(confirmation.operation(), operation);

    let launch = state.confirm_operation().expect("current confirmation");
    assert_eq!(launch.operation(), operation);
    assert_eq!(launch.root(), Some("/games/crusaders"));
    assert!(state.operation_in_progress());
    assert_eq!(
        state.active_backup(),
        Some("/games/crusaders/Kuf2Main.exe.bak")
    );
    assert!(!state.request_operation(PatchOperation::SetFireRate {
        id: FireRatePresetID::Turbo,
    }));

    state.set_context(Game::Crusaders, Some("/games/other".to_owned()), 2);
    assert!(state.operation_in_progress());
    assert!(state.begin_inspection().is_none());
    assert_eq!(
        state.finish_operation(launch.key()),
        PatchFinish::ContextChanged
    );
    assert!(!state.operation_in_progress());
    assert!(state.begin_inspection().is_some());
}

#[test]
fn operation_admission_matches_known_patch_and_fire_rate_states() {
    let mut state = ready_state();
    assert!(!state.request_operation(PatchOperation::SetPatch {
        id: PatchID::DebugMenu,
        target: PatchTarget::NotApplied,
    }));
    assert!(!state.request_operation(PatchOperation::SetPatch {
        id: PatchID::TerrainBounds,
        target: PatchTarget::Applied,
    }));
    assert!(!state.request_operation(PatchOperation::SetFireRate {
        id: FireRatePresetID::Original,
    }));
    assert!(state.request_operation(PatchOperation::SetFireRate {
        id: FireRatePresetID::Turbo,
    }));
    state.dismiss_confirmation();

    let custom = PatchSnapshot::new(
        "/games/crusaders/Kuf2Main.exe".into(),
        "/games/crusaders/Kuf2Main.exe.bak".into(),
        BackupStatus::Present,
        [
            ExecutablePatchState::new(PatchID::DebugMenu, PatchStatus::Applied),
            ExecutablePatchState::new(PatchID::TerrainBounds, PatchStatus::NotApplied),
        ],
        FireRateStatus::Custom,
    );
    let key = state
        .begin_inspection()
        .expect("begin replacement inspection");
    assert!(state.finish_inspection(key, Ok(custom)));
    assert!(state.request_operation(PatchOperation::SetPatch {
        id: PatchID::DebugMenu,
        target: PatchTarget::NotApplied,
    }));
    state.dismiss_confirmation();
    assert!(state.request_operation(PatchOperation::SetFireRate {
        id: FireRatePresetID::Fast,
    }));
}

#[test]
fn failed_inspection_is_bound_to_its_key() {
    let mut state =
        PatchPresentationState::new(Game::Crusaders, Some("/games/crusaders".to_owned()), 1);
    let key = state.begin_inspection().expect("configured root");
    assert!(state.finish_inspection(key, Err("unsupported executable".to_owned())));
    let PatchInspectionPhase::Failed { message, .. } = state.phase() else {
        panic!("expected failed inspection");
    };
    assert_eq!(message, "unsupported executable");
}

#[test]
fn a_superseded_inspection_and_a_stale_confirmation_are_rejected() {
    let mut state =
        PatchPresentationState::new(Game::Crusaders, Some("/games/crusaders".to_owned()), 1);
    let first = state.begin_inspection().unwrap();
    let second = state.begin_inspection().unwrap();
    assert_eq!(second.request().get(), 2);
    assert!(!state.finish_inspection(first, Ok(snapshot())));
    assert!(state.finish_inspection(second, Ok(snapshot())));
    assert!(state.request_operation(PatchOperation::SetFireRate {
        id: FireRatePresetID::Rapid,
    }));
    let refresh = state.begin_inspection().unwrap();
    assert!(state.pending_confirmation().is_none());
    assert!(state.finish_inspection(refresh, Ok(snapshot())));
    assert!(state.confirm_operation().is_none());
}

#[test]
fn finishing_a_foreign_operation_is_ignored_and_the_current_one_is_current() {
    let mut state = ready_state();
    assert!(state.request_operation(PatchOperation::SetFireRate {
        id: FireRatePresetID::Fast,
    }));
    let launch = state.confirm_operation().unwrap();
    assert_eq!(launch.key().request().get(), 2);
    let mut other = ready_state();
    assert!(other.request_operation(PatchOperation::SetFireRate {
        id: FireRatePresetID::Turbo,
    }));
    let foreign = other.confirm_operation().unwrap();
    assert_eq!(state.finish_operation(foreign.key()), PatchFinish::Ignored);
    assert!(state.operation_in_progress());
    assert_eq!(state.finish_operation(launch.key()), PatchFinish::Current);
    assert_eq!(state.finish_operation(launch.key()), PatchFinish::Ignored);
}

#[test]
fn unlisted_patches_have_an_unknown_status() {
    let snapshot = PatchSnapshot::new(
        "exe".into(),
        "bak".into(),
        BackupStatus::Missing,
        [
            ExecutablePatchState::new(PatchID::DebugMenu, PatchStatus::Applied),
            ExecutablePatchState::new(PatchID::DebugMenu, PatchStatus::NotApplied),
        ],
        FireRateStatus::Unknown,
    );
    assert_eq!(snapshot.patch_status(PatchID::DebugMenu), PatchStatus::Applied);
    assert_eq!(snapshot.patch_status(PatchID::TerrainBounds), PatchStatus::Unknown);
    assert_eq!(snapshot.backup_status(), BackupStatus::Missing);
    assert_eq!(snapshot.executable(), "exe");
    assert_eq!(snapshot.backup(), "bak");
}

fn ready_state() -> PatchPresentationState {
    let mut state =
        PatchPresentationState::new(Game::Crusaders, Some("/games/crusaders".to_owned()), 1);
    let key = state.begin_inspection().expect("configured root");
    assert!(state.finish_inspection(key, Ok(snapshot())));
    state
}

fn snapshot() -> PatchSnapshot {
    PatchSnapshot::new(
        "/games/crusaders/Kuf2Main.exe".into(),
        "/games/crusaders/Kuf2Main.exe.bak".into(),
        BackupStatus::Missing,
        [
            ExecutablePatchState::new(PatchID::DebugMenu, PatchStatus::NotApplied),
            ExecutablePatchState::new(PatchID::TerrainBounds, PatchStatus::Unknown),
        ],
        FireRateStatus::Preset(FireRatePresetID::Original),
    )
}

#[test]
fn a_root_spelled_as_the_same_path_keeps_the_context() {
    let mut state =
        PatchPresentationState::new(Game::Crusaders, Some("/games/crusaders".to_owned()), 3);
    let key = state.begin_inspection().expect("configured Crusaders root");
    assert_eq!(
        state.set_context(Game::Crusaders, Some("/games/crusaders/".to_owned()), 3),
        PatchContextChange::Unchanged,
    );
    assert!(state.finish_inspection(key, Ok(snapshot())));
    assert_eq!(
        state.set_context(Game::Crusaders, Some("/games/./crusaders".to_owned()), 4),
        PatchContextChange::Changed,
    );
}
