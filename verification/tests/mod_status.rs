use kufeditor::game::Game;
use kufeditor::mod_status::{
    BackupID, BackupSnapshot, InstallationID, InstalledModSnapshot, InstalledModStatus,
    ModCollectionSnapshot, ModContextChange, ModIssueScope, ModLibraryState, ModOperationKind,
    ModOperationTarget, ModPackageID, ModPackageSnapshot, ModPresentationState, ModProgress,
    ModProgressPhase, ModPromptKind, ModRootCompletion, ModRootState, ModScanCompletion,
    ModScanScope, ModSection, OperationID,
};

#[test]
fn defaults_to_installed_and_preserves_the_section_across_scans() {
    let mut state = ModPresentationState::default();
    assert_eq!(state.section(), ModSection::Installed);

    state.select_section(ModSection::Backups);
    let key = state.begin_scan(ModScanScope::Full, true);
    assert!(state.finish_scan(key, ready_completion(Vec::new(), Vec::new(), Vec::new())));

    assert_eq!(state.section(), ModSection::Backups);
    assert!(matches!(state.library_state(), ModLibraryState::Ready(_)));
    assert!(matches!(state.root_state(), ModRootState::Ready { .. }));
}

#[test]
fn stable_id_reconciliation_keeps_a_selection_then_chooses_the_first_remaining_row() {
    let mut state = ModPresentationState::default();
    let package_a = package('a', "Alpha", Game::Crusaders, &["alpha.sox"]);
    let package_b = package('b', "Bravo", Game::Crusaders, &["bravo.sox"]);
    let installed_a = installed('1', &package_a, InstalledModStatus::Clean);
    let installed_b = installed('2', &package_b, InstalledModStatus::Clean);
    let backup_a = backup('3', "Alpha backup");
    let backup_b = backup('4', "Bravo backup");

    let key = state.begin_scan(ModScanScope::Full, true);
    assert!(state.finish_scan(
        key,
        ready_completion(
            vec![package_a.clone(), package_b.clone()],
            vec![installed_a.clone(), installed_b.clone()],
            vec![backup_a.clone(), backup_b.clone()],
        ),
    ));
    state.select_package(Some(package_b.package_id));
    state.select_installation(Some(installed_b.installation_id));
    state.select_backup(Some(backup_b.backup_id));

    let key = state.begin_scan(ModScanScope::Full, true);
    assert!(state.finish_scan(
        key,
        ready_completion(
            vec![package_b.clone()],
            vec![installed_b.clone()],
            vec![backup_b.clone()],
        ),
    ));
    assert_eq!(state.selected_package(), Some(package_b.package_id));
    assert_eq!(state.selected_installation(), Some(installed_b.installation_id));
    assert_eq!(state.selected_backup(), Some(backup_b.backup_id));

    let key = state.begin_scan(ModScanScope::Full, true);
    assert!(state.finish_scan(
        key,
        ready_completion(
            vec![package_a.clone()],
            vec![installed_a.clone()],
            vec![backup_a.clone()],
        ),
    ));
    assert_eq!(state.selected_package(), Some(package_a.package_id));
    assert_eq!(state.selected_installation(), Some(installed_a.installation_id));
    assert_eq!(state.selected_backup(), Some(backup_a.backup_id));
}

#[test]
fn every_context_revision_rejects_stale_scan_results() {
    let mut state = ModPresentationState::default();
    let first = state.begin_scan(ModScanScope::Full, true);

    assert_eq!(state.set_context(Game::Crusaders, 1), ModContextChange::Changed);
    assert!(!state.finish_scan(first, ready_completion(Vec::new(), Vec::new(), Vec::new())));

    let second = state.begin_scan(ModScanScope::Full, true);
    assert_eq!(state.library_changed(), 1);
    assert!(!state.finish_scan(second, ready_completion(Vec::new(), Vec::new(), Vec::new())));

    let third = state.begin_scan(ModScanScope::Full, true);
    assert_eq!(state.set_context(Game::Heroes, 7), ModContextChange::Changed);
    assert!(!state.finish_scan(third, ready_completion(Vec::new(), Vec::new(), Vec::new())));
    assert_eq!(state.game(), Game::Heroes);
    assert_eq!(state.root_revision(), 7);
    assert_eq!(state.library_revision(), 1);
    assert!(matches!(state.root_state(), ModRootState::Idle));
}

#[test]
fn only_one_destructive_operation_can_own_the_context_until_it_changes() {
    let mut state = ModPresentationState::default();
    let operation = state
        .begin_operation(ModOperationKind::Apply)
        .expect("the first operation should start");

    assert!(state.begin_operation(ModOperationKind::Uninstall).is_none());
    assert_eq!(state.set_context(Game::Heroes, 1), ModContextChange::Changed);
    assert!(!state.finish_operation(operation.with_request_offset(1)));
    assert!(!state.finish_operation(operation));
    assert!(state.begin_operation(ModOperationKind::Uninstall).is_some());
}

#[test]
fn operation_and_issue_kinds_have_stable_labels_and_scopes() {
    let operations = [
        ModOperationKind::Import,
        ModOperationKind::Create,
        ModOperationKind::Apply,
        ModOperationKind::Uninstall,
        ModOperationKind::CreateBackup,
        ModOperationKind::RestoreBackup,
        ModOperationKind::DeleteBackup,
        ModOperationKind::RemovePackage,
    ];
    assert!(operations
        .into_iter()
        .all(|operation| !operation.label().is_empty()));

    assert!(ModIssueScope::Installed.belongs_to(ModSection::Installed));
    assert!(ModIssueScope::Library.belongs_to(ModSection::Library));
    assert!(ModIssueScope::Backups.belongs_to(ModSection::Backups));
    assert!(ModIssueScope::Create.belongs_to(ModSection::Create));
    assert!(ModIssueScope::Root.belongs_to(ModSection::Installed));
    assert!(ModIssueScope::Root.belongs_to(ModSection::Backups));
    assert!(ModIssueScope::Operation.belongs_to(ModSection::Create));
}

#[test]
fn mods_stale_prompts_and_confirmations_require_the_exact_current_key() {
    let mut state = ModPresentationState::default();
    let first = state
        .begin_prompt(ModPromptKind::Import)
        .expect("the first prompt should start");
    let second = state
        .begin_prompt(ModPromptKind::Import)
        .expect("a newer prompt should supersede the first");
    assert!(!state.finish_prompt(ModPromptKind::Import, first));
    assert!(state.finish_prompt(ModPromptKind::Import, second));

    let package_id = package_id('a');
    let confirmation = state
        .begin_confirmation(
            ModOperationKind::Apply,
            ModOperationTarget::Package(package_id),
            "Alpha 1.0".to_owned(),
            "Replace its owned game files.".to_owned(),
        )
        .expect("the confirmation should open");
    assert_eq!(
        state.pending_confirmation().map(|pending| pending.key),
        Some(confirmation)
    );
    assert_eq!(state.library_changed(), 1);
    assert!(state.confirm_operation().is_none());

    let prompt = state
        .begin_prompt(ModPromptKind::SelectFiles)
        .expect("the file prompt should start");
    assert_eq!(state.set_context(Game::Heroes, 3), ModContextChange::Changed);
    assert!(!state.finish_prompt(ModPromptKind::SelectFiles, prompt));
}

#[test]
fn mods_actions_confirm_stable_targets_and_track_bounded_progress() {
    let mut state = ModPresentationState::default();
    let installation_id = InstallationID(digits('b'));
    state
        .begin_confirmation(
            ModOperationKind::Uninstall,
            ModOperationTarget::Installation(installation_id),
            "Bravo 1.0".to_owned(),
            "Restore its before-images and remove its installation record.".to_owned(),
        )
        .expect("the confirmation should open");
    let launch = state
        .confirm_operation()
        .expect("the exact confirmation should launch");
    assert_eq!(launch.kind, ModOperationKind::Uninstall);
    assert_eq!(
        launch.target,
        Some(ModOperationTarget::Installation(installation_id))
    );

    assert!(state.update_progress(
        launch.key,
        1,
        1,
        &ModProgress {
            phase: ModProgressPhase::StagingUninstall,
            completed: 5,
            total: 10,
            path: None,
        },
    ));
    assert!(!state.update_progress(
        launch.key,
        2,
        1,
        &ModProgress {
            phase: ModProgressPhase::StagingUninstall,
            completed: 4,
            total: 10,
            path: None,
        },
    ));
    assert!(state.progress().is_some_and(|progress| progress.can_cancel));
    assert!(state.request_cancellation());
    assert!(state
        .progress()
        .is_some_and(|progress| progress.cancel_requested));

    assert!(state.update_progress(
        launch.key,
        3,
        2,
        &ModProgress {
            phase: ModProgressPhase::PublishingUninstall,
            completed: 0,
            total: 1,
            path: None,
        },
    ));
    assert!(state
        .progress()
        .is_some_and(|progress| !progress.can_cancel));
    assert!(!state.request_cancellation());
    assert!(state.finish_operation(launch.key));
}

#[test]
fn mods_progress_accepts_valid_phase_changes_that_reuse_package_phases() {
    let mut state = ModPresentationState::default();
    let operation = state
        .begin_operation(ModOperationKind::Create)
        .expect("the create operation should start");

    for (sequence, phase_epoch, progress) in [
        (
            1,
            1,
            ModProgress {
                phase: ModProgressPhase::CreatingPackage,
                completed: 1,
                total: 1,
                path: None,
            },
        ),
        (
            2,
            2,
            ModProgress {
                phase: ModProgressPhase::InspectingPackage,
                completed: 0,
                total: 2,
                path: None,
            },
        ),
        (
            3,
            3,
            ModProgress {
                phase: ModProgressPhase::PublishingPackage,
                completed: 0,
                total: 1,
                path: None,
            },
        ),
        (
            4,
            4,
            ModProgress {
                phase: ModProgressPhase::InspectingPackage,
                completed: 0,
                total: 2,
                path: None,
            },
        ),
    ] {
        assert!(
            state.update_progress(operation, sequence, phase_epoch, &progress),
            "valid phase change to {:?} was discarded",
            progress.phase
        );
    }
    assert!(state.progress().is_some_and(|progress| {
        progress.phase == ModProgressPhase::InspectingPackage && progress.can_cancel
    }));
}

fn ready_completion(
    packages: Vec<ModPackageSnapshot>,
    installations: Vec<InstalledModSnapshot>,
    backups: Vec<BackupSnapshot>,
) -> ModScanCompletion {
    ModScanCompletion::new(
        Ok(ModCollectionSnapshot::new(packages, Vec::new())),
        ModRootCompletion::Ready {
            configured_root: "/game".into(),
            installations: ModCollectionSnapshot::new(installations, Vec::new()),
            backups: ModCollectionSnapshot::new(backups, Vec::new()),
        },
    )
}

fn digits(digit: char) -> u64 {
    let value = digit.to_digit(16).unwrap() as u64;
    (0..16).fold(0, |acc, _| acc * 16 + value)
}

fn package_id(digit: char) -> ModPackageID {
    ModPackageID(digits(digit))
}

fn package(digit: char, name: &str, game: Game, files: &[&str]) -> ModPackageSnapshot {
    ModPackageSnapshot {
        package_id: package_id(digit),
        name: name.to_owned(),
        version: "1.0".to_owned(),
        author: None,
        description: None,
        game,
        files: files.iter().map(|path| (*path).to_owned()).collect(),
        compressed_bytes: 8,
        uncompressed_bytes: 16,
        file_count: u64::try_from(files.len()).unwrap(),
    }
}

fn installed(
    digit: char,
    package: &ModPackageSnapshot,
    status: InstalledModStatus,
) -> InstalledModSnapshot {
    InstalledModSnapshot {
        installation_id: InstallationID(digits(digit)),
        package_id: package.package_id,
        operation_id: OperationID(digits('d')),
        name: package.name.clone(),
        version: package.version.clone(),
        game: package.game,
        installed_at: "2026-08-26T12:00:00Z".to_owned(),
        status: Some(status),
        files: package.files.clone(),
    }
}

fn backup(digit: char, label: &str) -> BackupSnapshot {
    BackupSnapshot {
        backup_id: BackupID(digits(digit)),
        label: Some(label.to_owned()),
        game: Game::Crusaders,
        created_at: "2026-08-26T12:00:00Z".to_owned(),
        file_count: 2,
        total_bytes: 32,
    }
}
