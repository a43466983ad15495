use kufeditor::game::Game;
use kufeditor::mod_requests::{
    applied_message, confirmation_consequence, dismiss_or_cancel_mod_operation,
    launch_is_routable, operation_failure_title, operation_in_progress_message,
    operation_issue_identity, request_mod_apply, request_mod_package_removal,
    request_mod_uninstall, restored_message, uninstalled_message, DismissOrCancel,
    export_file_name, exported_message, imported_message, scan_interrupted, select_mod_backup,
    select_mod_installation, select_mod_package, selected_files_message,
};
use kufeditor::mod_status::{
    BackupID, InstallationID, InstalledModSnapshot, ModCollectionSnapshot, ModOperationKind,
    ModOperationTarget, ModPackageID, ModPackageSnapshot, ModPresentationState, ModProgress,
    ModProgressPhase, ModRootCompletion, ModScanCompletion, ModScanScope, OperationID, RequestID,
};

fn package(id: u64, name: &str) -> ModPackageSnapshot {
    ModPackageSnapshot {
        package_id: ModPackageID(id),
        name: name.to_owned(),
        version: "1.0".to_owned(),
        author: None,
        description: None,
        game: Game::Crusaders,
        files: vec!["a.sox".to_owned()],
        compressed_bytes: 8,
        uncompressed_bytes: 16,
        file_count: 1,
    }
}

fn installed(id: u64, name: &str) -> InstalledModSnapshot {
    InstalledModSnapshot {
        installation_id: InstallationID(id),
        package_id: ModPackageID(1),
        operation_id: OperationID(9),
        name: name.to_owned(),
        version: "2.1".to_owned(),
        game: Game::Crusaders,
        installed_at: "2026-08-26T12:00:00Z".to_owned(),
        status: None,
        files: Vec::new(),
    }
}

fn listed_state() -> ModPresentationState {
    let mut state = ModPresentationState::default();
    let key = state.begin_scan(ModScanScope::Full, true);
    assert!(state.finish_scan(
        key,
        ModScanCompletion::new(
            Ok(ModCollectionSnapshot::new(vec![package(1, "Alpha")], Vec::new())),
            ModRootCompletion::Ready {
                configured_root: "/game".to_owned(),
                installations: ModCollectionSnapshot::new(vec![installed(5, "Bravo")], Vec::new()),
                backups: ModCollectionSnapshot::new(Vec::new(), Vec::new()),
            },
        ),
    ));
    state
}

#[test]
fn applying_a_listed_package_asks_for_confirmation_with_its_name_and_version() {
    let mut state = listed_state();
    let key = request_mod_apply(&mut state, ModPackageID(1)).expect("listed package");
    let pending = state.pending_confirmation().unwrap();
    assert_eq!(pending.key, key);
    assert_eq!(pending.operation, ModOperationKind::Apply);
    assert_eq!(pending.target, ModOperationTarget::Package(ModPackageID(1)));
    assert_eq!(pending.subject, "Alpha 1.0");
    assert_eq!(
        pending.consequence,
        "Replace files in the selected game folder with files from this package."
    );
    assert!(request_mod_apply(&mut state, ModPackageID(2)).is_none());
    assert_eq!(state.pending_confirmation().unwrap().key, key);
}

#[test]
fn removal_and_uninstall_confirmations_name_their_subjects() {
    let mut state = listed_state();
    request_mod_package_removal(&mut state, ModPackageID(1)).expect("listed package");
    assert_eq!(
        state.pending_confirmation().unwrap().consequence,
        "Delete this package from the library. Installed packages must be uninstalled first."
    );
    request_mod_uninstall(&mut state, InstallationID(5)).expect("listed installation");
    let pending = state.pending_confirmation().unwrap();
    assert_eq!(pending.subject, "Bravo 2.1");
    assert_eq!(pending.target, ModOperationTarget::Installation(InstallationID(5)));
    assert!(request_mod_uninstall(&mut state, InstallationID(6)).is_none());
}

#[test]
fn no_confirmation_opens_while_an_operation_runs() {
    let mut state = listed_state();
    state.begin_operation(ModOperationKind::Import).unwrap();
    assert!(request_mod_apply(&mut state, ModPackageID(1)).is_none());
    assert!(state.pending_confirmation().is_none());
}

#[test]
fn escape_dismisses_first_and_then_cancels_once() {
    let mut state = listed_state();
    request_mod_apply(&mut state, ModPackageID(1)).unwrap();
    assert_eq!(dismiss_or_cancel_mod_operation(&mut state), DismissOrCancel::Dismissed);
    assert_eq!(dismiss_or_cancel_mod_operation(&mut state), DismissOrCancel::Nothing);

    let key = state.begin_operation(ModOperationKind::Create).unwrap();
    assert!(state.update_progress(
        key,
        1,
        1,
        &ModProgress { phase: ModProgressPhase::CreatingPackage, completed: 0, total: 3, path: None },
    ));
    assert_eq!(dismiss_or_cancel_mod_operation(&mut state), DismissOrCancel::CancelRequested);
    assert_eq!(dismiss_or_cancel_mod_operation(&mut state), DismissOrCancel::Nothing);
}

#[test]
fn only_matching_targets_are_launched() {
    assert!(launch_is_routable(
        ModOperationKind::Apply,
        Some(ModOperationTarget::Package(ModPackageID(1)))
    ));
    assert!(launch_is_routable(
        ModOperationKind::DeleteBackup,
        Some(ModOperationTarget::Backup(BackupID(3)))
    ));
    assert!(!launch_is_routable(
        ModOperationKind::Apply,
        Some(ModOperationTarget::Backup(BackupID(3)))
    ));
    assert!(!launch_is_routable(ModOperationKind::Uninstall, None));
    assert!(!launch_is_routable(
        ModOperationKind::Import,
        Some(ModOperationTarget::Package(ModPackageID(1)))
    ));
    assert_eq!(confirmation_consequence(ModOperationKind::DeleteBackup), Some("Permanently delete this backup."));
    assert_eq!(confirmation_consequence(ModOperationKind::Create), None);
}

#[test]
fn operation_messages_name_the_operation_and_its_counts() {
    assert_eq!(
        operation_in_progress_message(ModOperationKind::Apply),
        "Apply package in progress"
    );
    assert_eq!(operation_failure_title(ModOperationKind::Uninstall), "Uninstall mod failed");
    assert_eq!(operation_issue_identity(RequestID(12)), "operation-12");
    assert_eq!(applied_message("Alpha", "1.0", 3), "Applied Alpha 1.0 · updated 3 files");
    assert_eq!(uninstalled_message(2, 1), "Uninstalled mod · 2 restored, 1 removed");
    assert_eq!(restored_message(7), "Restored backup · replaced 7 files");
}

#[test]
fn only_listed_rows_can_be_selected() {
    let mut state = listed_state();
    assert!(!select_mod_package(&mut state, ModPackageID(7)));
    assert_eq!(state.selected_package(), Some(ModPackageID(1)));
    assert!(select_mod_installation(&mut state, InstallationID(5)));
    assert_eq!(state.selected_installation(), Some(InstallationID(5)));
    assert!(!select_mod_installation(&mut state, InstallationID(6)));
    assert!(!select_mod_backup(&mut state, BackupID(1)));
    assert_eq!(state.selected_backup(), None);
    assert!(select_mod_package(&mut state, ModPackageID(1)));
}

#[test]
fn a_loading_listing_marks_an_interrupted_scan() {
    let mut state = ModPresentationState::default();
    assert!(!scan_interrupted(&state));
    state.begin_scan(ModScanScope::LibraryOnly, false);
    assert!(scan_interrupted(&state));
    assert!(!scan_interrupted(&listed_state()));
}

#[test]
fn export_names_and_import_messages() {
    assert_eq!(export_file_name(" My Pack ", "1.0 beta"), "My-Pack-1.0-beta.zip");
    assert_eq!(export_file_name("///", ""), "package-package.zip");
    assert_eq!(selected_files_message(1), "Selected 1 package file");
    assert_eq!(selected_files_message(4), "Selected 4 package files");
    assert_eq!(imported_message(true, "Alpha", "1.0"), "Imported Alpha 1.0");
    assert_eq!(
        imported_message(false, "Alpha", "1.0"),
        "Already in the library Alpha 1.0"
    );
    assert_eq!(exported_message("Alpha", "1.0"), "Exported and imported Alpha 1.0");
}
