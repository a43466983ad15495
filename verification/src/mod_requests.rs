//! The requests the Mods pane turns user actions into: confirmations of
//! destructive operations with their wording, the escape key that dismisses
//! or cancels, and the messages that report how an operation ended.

use vstd::prelude::*;
use vstd::string::*;

use crate::integer_text::{decimal_digits, unsigned_decimal_string};
use crate::mod_actions::{package_filename, safe_package_filename};
use crate::mod_status::{
    after_begin_confirmation, cancellation_accepted, after_cancellation, installation_ids,
    next_key_spec, operation_label, package_ids, backup_ids, first_position, BackupID,
    InstallationID, InstalledModSnapshot, ModLibraryState, ModOperationKind, ModOperationTarget,
    ModPackageID, ModPackageSnapshot, ModPresentationState, ModRequestKey, ModRootState,
    ModStateView, RequestID,
};

verus! {

/// What confirming an operation of `kind` will do, as the confirmation
/// says it.
pub open spec fn consequence_text(kind: ModOperationKind) -> Seq<char> {
    match kind {
        ModOperationKind::Apply => "Replace files in the selected game folder with files from this package."@,
        ModOperationKind::RemovePackage => "Delete this package from the library. Installed packages must be uninstalled first."@,
        ModOperationKind::Uninstall => "Restore the original files, delete files added by the mod, and remove the mod from Installed."@,
        ModOperationKind::RestoreBackup => "Replace matching game files with files from this backup. Other files will stay in place."@,
        ModOperationKind::DeleteBackup => "Permanently delete this backup."@,
        _ => Seq::empty(),
    }
}

/// Whether operations of `kind` are confirmed before they run.
pub open spec fn is_confirmed(kind: ModOperationKind) -> bool {
    kind == ModOperationKind::Apply || kind == ModOperationKind::RemovePackage || kind
        == ModOperationKind::Uninstall || kind == ModOperationKind::RestoreBackup || kind
        == ModOperationKind::DeleteBackup
}

/// The consequence a confirmation of `kind` states, for the kinds that are
/// confirmed.
pub fn confirmation_consequence(kind: ModOperationKind) -> (text: Option<&'static str>)
    ensures
        match text {
            Some(t) => is_confirmed(kind) && t@ == consequence_text(kind),
            None => !is_confirmed(kind),
        },
{
    match kind {
        ModOperationKind::Apply => Some("Replace files in the selected game folder with files from this package."),
        ModOperationKind::RemovePackage => Some("Delete this package from the library. Installed packages must be uninstalled first."),
        ModOperationKind::Uninstall => Some("Restore the original files, delete files added by the mod, and remove the mod from Installed."),
        ModOperationKind::RestoreBackup => Some("Replace matching game files with files from this backup. Other files will stay in place."),
        ModOperationKind::DeleteBackup => Some("Permanently delete this backup."),
        _ => None,
    }
}

/// The subject of a confirmation about a package or installed mod: its
/// name and version.
pub open spec fn name_and_version(name: Seq<char>, version: Seq<char>) -> Seq<char> {
    name + " "@ + version
}

/// The subject naming `name` at `version`.
pub fn subject_of(name: &String, version: &String) -> (subject: String)
    ensures
        subject@ == name_and_version(name@, version@),
{
    let mut subject = name.clone();
    subject.append(" ");
    subject.append(version.as_str());
    subject
}

/// The first listed package with identity `id`, if the library is listed.
pub open spec fn listed_package(s: ModStateView, id: ModPackageID) -> Option<ModPackageSnapshot> {
    match s.library_state {
        ModLibraryState::Ready(library) => match package_ids(library.rows@).index_of_first(id) {
            Some(i) => Some(library.rows@[i]),
            None => None,
        },
        _ => None,
    }
}

/// The first listed installed mod with identity `id`, if the game folder is
/// listed.
pub open spec fn listed_installation(s: ModStateView, id: InstallationID) -> Option<
    InstalledModSnapshot,
> {
    match s.root_state {
        ModRootState::Ready { installations, .. } => match installation_ids(
            installations.rows@,
        ).index_of_first(id) {
            Some(i) => Some(installations.rows@[i]),
            None => None,
        },
        _ => None,
    }
}

proof fn lemma_first_position<T>(ids: Seq<T>, id: T, i: int)
    requires
        first_position(ids, id, i),
    ensures
        ids.index_of_first(id) == Some(i),
{
    ids.index_of_first_ensures(id);
    assert(ids.contains(id));
}

proof fn lemma_not_listed<T>(ids: Seq<T>, id: T)
    requires
        !ids.contains(id),
    ensures
        ids.index_of_first(id) is None,
{
    ids.index_of_first_ensures(id);
}

/// The pane after asking to confirm `kind` on `target` about `subject`:
/// nothing changes while an operation runs.
pub open spec fn confirmation_requested(
    old_state: ModStateView,
    new_state: ModStateView,
    key: Option<ModRequestKey>,
    kind: ModOperationKind,
    target: ModOperationTarget,
    subject: Seq<char>,
) -> bool {
    if old_state.active_operation is Some {
        key is None && new_state == old_state
    } else {
        &&& key == Some(next_key_spec(old_state))
        &&& exists|s: String, c: String|
            s@ == subject && c@ == consequence_text(kind) && new_state == after_begin_confirmation(
                old_state,
                kind,
                target,
                s,
                c,
            )
    }
}

fn request_confirmation(
    state: &mut ModPresentationState,
    kind: ModOperationKind,
    target: ModOperationTarget,
    subject: String,
) -> (key: Option<ModRequestKey>)
    requires
        is_confirmed(kind),
    ensures
        confirmation_requested(old(state)@, final(state)@, key, kind, target, subject@),
{
    let consequence = match confirmation_consequence(kind) {
        Some(text) => text.to_owned(),
        None => String::new(),
    };
    let ghost s = subject;
    let ghost c = consequence;
    let key = state.begin_confirmation(kind, target, subject, consequence);
    proof {
        if old(state)@.active_operation is None {
            assert(state@ == after_begin_confirmation(old(state)@, kind, target, s, c));
        }
    }
    key
}

fn package_subject(state: &ModPresentationState, package_id: ModPackageID) -> (subject: Option<String>)
    ensures
        match listed_package(state@, package_id) {
            Some(p) => subject matches Some(s) && s@ == name_and_version(p.name@, p.version@),
            None => subject is None,
        },
{
    match state.package(package_id) {
        Some(package) => {
            proof {
                match state@.library_state {
                    ModLibraryState::Ready(library) => {
                        let i = choose|i: int|
                            first_position(package_ids(library.rows@), package_id, i) && *package
                                == library.rows@[i];
                        lemma_first_position(package_ids(library.rows@), package_id, i);
                    },
                    _ => {},
                }
            }
            Some(subject_of(&package.name, &package.version))
        },
        None => {
            proof {
                match state@.library_state {
                    ModLibraryState::Ready(library) => {
                        lemma_not_listed(package_ids(library.rows@), package_id);
                    },
                    _ => {},
                }
            }
            None
        },
    }
}

/// Asks to confirm applying the listed package `package_id`, named by its
/// name and version. Nothing happens when it is not listed.
pub fn request_mod_apply(state: &mut ModPresentationState, package_id: ModPackageID) -> (key: Option<
    ModRequestKey,
>)
    ensures
        match listed_package(old(state)@, package_id) {
            None => key is None && final(state)@ == old(state)@,
            Some(p) => confirmation_requested(
                old(state)@,
                final(state)@,
                key,
                ModOperationKind::Apply,
                ModOperationTarget::Package(package_id),
                name_and_version(p.name@, p.version@),
            ),
        },
{
    match package_subject(state, package_id) {
        Some(subject) => request_confirmation(
            state,
            ModOperationKind::Apply,
            ModOperationTarget::Package(package_id),
            subject,
        ),
        None => None,
    }
}

/// Asks to confirm removing the listed package `package_id` from the
/// library. Nothing happens when it is not listed.
pub fn request_mod_package_removal(state: &mut ModPresentationState, package_id: ModPackageID) -> (key:
    Option<ModRequestKey>)
    ensures
        match listed_package(old(state)@, package_id) {
            None => key is None && final(state)@ == old(state)@,
            Some(p) => confirmation_requested(
                old(state)@,
                final(state)@,
                key,
                ModOperationKind::RemovePackage,
                ModOperationTarget::Package(package_id),
                name_and_version(p.name@, p.version@),
            ),
        },
{
    match package_subject(state, package_id) {
        Some(subject) => request_confirmation(
            state,
            ModOperationKind::RemovePackage,
            ModOperationTarget::Package(package_id),
            subject,
        ),
        None => None,
    }
}

/// Asks to confirm uninstalling the listed installed mod
/// `installation_id`. Nothing happens when it is not listed.
pub fn request_mod_uninstall(state: &mut ModPresentationState, installation_id: InstallationID) -> (key:
    Option<ModRequestKey>)
    ensures
        match listed_installation(old(state)@, installation_id) {
            None => key is None && final(state)@ == old(state)@,
            Some(m) => confirmation_requested(
                old(state)@,
                final(state)@,
                key,
                ModOperationKind::Uninstall,
                ModOperationTarget::Installation(installation_id),
                name_and_version(m.name@, m.version@),
            ),
        },
{
    let subject = match state.installation(installation_id) {
        Some(installed) => {
            proof {
                match state@.root_state {
                    ModRootState::Ready { installations, .. } => {
                        let i = choose|i: int|
                            first_position(
                                installation_ids(installations.rows@),
                                installation_id,
                                i,
                            ) && *installed == installations.rows@[i];
                        lemma_first_position(
                            installation_ids(installations.rows@),
                            installation_id,
                            i,
                        );
                    },
                    _ => {},
                }
            }
            subject_of(&installed.name, &installed.version)
        },
        None => {
            proof {
                match state@.root_state {
                    ModRootState::Ready { installations, .. } => {
                        lemma_not_listed(installation_ids(installations.rows@), installation_id);
                    },
                    _ => {},
                }
            }
            return None;
        },
    };
    request_confirmation(
        state,
        ModOperationKind::Uninstall,
        ModOperationTarget::Installation(installation_id),
        subject,
    )
}

/// What the escape key did in the Mods pane.
#[derive(Clone, Copy, Debug, PartialEq, Eq, Structural)]
pub enum DismissOrCancel {
    /// A pending confirmation was dismissed.
    Dismissed,
    /// Cancellation of the running operation was requested; the operation
    /// must be told.
    CancelRequested,
    /// There was nothing to dismiss or cancel.
    Nothing,
}

/// Dismisses the pending confirmation, or else requests cancellation of the
/// running operation when its progress allows it.
pub fn dismiss_or_cancel_mod_operation(state: &mut ModPresentationState) -> (done: DismissOrCancel)
    ensures
        if old(state)@.pending_confirmation is Some {
            done == DismissOrCancel::Dismissed && final(state)@ == (ModStateView {
                pending_confirmation: None,
                ..old(state)@
            })
        } else if cancellation_accepted(old(state)@) {
            done == DismissOrCancel::CancelRequested && final(state)@ == after_cancellation(
                old(state)@,
            )
        } else {
            done == DismissOrCancel::Nothing && final(state)@ == old(state)@
        },
{
    if state.dismiss_confirmation() {
        return DismissOrCancel::Dismissed;
    }
    assert(state@ == old(state)@);
    if state.request_cancellation() {
        DismissOrCancel::CancelRequested
    } else {
        DismissOrCancel::Nothing
    }
}

/// Whether a confirmed operation names a target of its kind: a package for
/// applying or removing, an installation for uninstalling, a backup for
/// restoring or deleting.
pub open spec fn routable(kind: ModOperationKind, target: Option<ModOperationTarget>) -> bool {
    match (kind, target) {
        (ModOperationKind::Apply, Some(ModOperationTarget::Package(_))) => true,
        (ModOperationKind::Uninstall, Some(ModOperationTarget::Installation(_))) => true,
        (ModOperationKind::RestoreBackup, Some(ModOperationTarget::Backup(_))) => true,
        (ModOperationKind::DeleteBackup, Some(ModOperationTarget::Backup(_))) => true,
        (ModOperationKind::RemovePackage, Some(ModOperationTarget::Package(_))) => true,
        _ => false,
    }
}

/// Whether the confirmed operation `kind` on `target` can be launched; one
/// that cannot is aborted.
pub fn launch_is_routable(kind: ModOperationKind, target: Option<ModOperationTarget>) -> (routable_launch: bool)
    ensures
        routable_launch == routable(kind, target),
{
    match (kind, target) {
        (ModOperationKind::Apply, Some(ModOperationTarget::Package(_))) => true,
        (ModOperationKind::Uninstall, Some(ModOperationTarget::Installation(_))) => true,
        (ModOperationKind::RestoreBackup, Some(ModOperationTarget::Backup(_))) => true,
        (ModOperationKind::DeleteBackup, Some(ModOperationTarget::Backup(_))) => true,
        (ModOperationKind::RemovePackage, Some(ModOperationTarget::Package(_))) => true,
        _ => false,
    }
}

/// Every confirmation the pane asks for launches: the operations confirmed
/// on a package, an installation or a backup are routable.
pub proof fn law_confirmed_requests_are_routable(id: ModPackageID, installation: InstallationID)
    ensures
        routable(ModOperationKind::Apply, Some(ModOperationTarget::Package(id))),
        routable(ModOperationKind::RemovePackage, Some(ModOperationTarget::Package(id))),
        routable(ModOperationKind::Uninstall, Some(ModOperationTarget::Installation(installation))),
        !routable(ModOperationKind::Apply, None),
{
}

/// The message of a running operation of `kind`.
pub open spec fn in_progress_text(kind: ModOperationKind) -> Seq<char> {
    operation_label(kind) + " in progress"@
}

/// The message shown while an operation of `kind` runs.
pub fn operation_in_progress_message(kind: ModOperationKind) -> (message: String)
    ensures
        message@ == in_progress_text(kind),
{
    let mut message = kind.label().to_owned();
    message.append(" in progress");
    message
}

/// The title of a failed operation of `kind`.
pub open spec fn failure_title(kind: ModOperationKind) -> Seq<char> {
    operation_label(kind) + " failed"@
}

/// The title of a failed operation of `kind`.
pub fn operation_failure_title(kind: ModOperationKind) -> (title: String)
    ensures
        title@ == failure_title(kind),
{
    let mut title = kind.label().to_owned();
    title.append(" failed");
    title
}

/// The identity of the issue a failed operation leaves.
pub open spec fn issue_identity(request: RequestID) -> Seq<char> {
    "operation-"@ + decimal_digits(request.0 as nat)
}

/// The identity of the issue left by the failed operation `request`.
pub fn operation_issue_identity(request: RequestID) -> (identity: String)
    ensures
        identity@ == issue_identity(request),
{
    let mut identity = "operation-".to_owned();
    let digits = unsigned_decimal_string(request.get());
    identity.append(digits.as_str());
    identity
}

/// The message of an applied package.
pub open spec fn applied_text(name: Seq<char>, version: Seq<char>, updated: nat) -> Seq<char> {
    "Applied "@ + name + " "@ + version + " · updated "@ + decimal_digits(updated) + " files"@
}

/// The message of a package `name` at `version` applied with `updated`
/// files written.
pub fn applied_message(name: &str, version: &str, updated: usize) -> (message: String)
    ensures
        message@ == applied_text(name@, version@, updated as nat),
{
    let mut message = "Applied ".to_owned();
    message.append(name);
    message.append(" ");
    message.append(version);
    message.append(" · updated ");
    let digits = unsigned_decimal_string(updated as u64);
    message.append(digits.as_str());
    message.append(" files");
    message
}

/// The message of an uninstalled mod.
pub open spec fn uninstalled_text(restored: nat, removed: nat) -> Seq<char> {
    "Uninstalled mod · "@ + decimal_digits(restored) + " restored, "@ + decimal_digits(removed)
        + " removed"@
}

/// The message of a mod uninstalled with `restored` files restored and
/// `removed` files removed.
pub fn uninstalled_message(restored: usize, removed: usize) -> (message: String)
    ensures
        message@ == uninstalled_text(restored as nat, removed as nat),
{
    let mut message = "Uninstalled mod · ".to_owned();
    let restored_digits = unsigned_decimal_string(restored as u64);
    message.append(restored_digits.as_str());
    message.append(" restored, ");
    let removed_digits = unsigned_decimal_string(removed as u64);
    message.append(removed_digits.as_str());
    message.append(" removed");
    message
}

/// The message of a restored backup.
pub open spec fn restored_text(replaced: nat) -> Seq<char> {
    "Restored backup · replaced "@ + decimal_digits(replaced) + " files"@
}

/// The message of a backup restored with `replaced` files replaced.
pub fn restored_message(replaced: usize) -> (message: String)
    ensures
        message@ == restored_text(replaced as nat),
{
    let mut message = "Restored backup · replaced ".to_owned();
    let digits = unsigned_decimal_string(replaced as u64);
    message.append(digits.as_str());
    message.append(" files");
    message
}

/// Selects the package `package_id` when it is listed. Returns whether it
/// was.
pub fn select_mod_package(state: &mut ModPresentationState, package_id: ModPackageID) -> (selected: bool)
    ensures
        selected == listed_package(old(state)@, package_id) is Some,
        final(state)@ == (if selected {
            ModStateView { selected_package: Some(package_id), ..old(state)@ }
        } else {
            old(state)@
        }),
{
    let listed = package_subject(state, package_id).is_some();
    if listed {
        state.select_package(Some(package_id));
    }
    listed
}

/// Selects the installed mod `installation_id` when it is listed. Returns
/// whether it was.
pub fn select_mod_installation(state: &mut ModPresentationState, installation_id: InstallationID) -> (selected: bool)
    ensures
        selected == listed_installation(old(state)@, installation_id) is Some,
        final(state)@ == (if selected {
            ModStateView { selected_installation: Some(installation_id), ..old(state)@ }
        } else {
            old(state)@
        }),
{
    let listed = match state.installation(installation_id) {
        Some(installed) => {
            proof {
                match state@.root_state {
                    ModRootState::Ready { installations, .. } => {
                        let i = choose|i: int|
                            first_position(
                                installation_ids(installations.rows@),
                                installation_id,
                                i,
                            ) && *installed == installations.rows@[i];
                        lemma_first_position(
                            installation_ids(installations.rows@),
                            installation_id,
                            i,
                        );
                    },
                    _ => {},
                }
            }
            true
        },
        None => {
            proof {
                match state@.root_state {
                    ModRootState::Ready { installations, .. } => {
                        lemma_not_listed(installation_ids(installations.rows@), installation_id);
                    },
                    _ => {},
                }
            }
            false
        },
    };
    if listed {
        state.select_installation(Some(installation_id));
    }
    listed
}

/// Whether the backup `backup_id` is listed.
pub open spec fn backup_listed(s: ModStateView, backup_id: BackupID) -> bool {
    s.root_state matches ModRootState::Ready { backups, .. } && backup_ids(backups.rows@).contains(
        backup_id,
    )
}

/// Selects the backup `backup_id` when it is listed. Returns whether it was.
pub fn select_mod_backup(state: &mut ModPresentationState, backup_id: BackupID) -> (selected: bool)
    ensures
        selected == backup_listed(old(state)@, backup_id),
        final(state)@ == (if selected {
            ModStateView { selected_backup: Some(backup_id), ..old(state)@ }
        } else {
            old(state)@
        }),
{
    let listed = match state.backup(backup_id) {
        Some(_) => true,
        None => false,
    };
    if listed {
        state.select_backup(Some(backup_id));
    }
    listed
}

/// Whether a prompt or confirmation interrupted a scan that must be
/// started again: a listing was still loading.
pub fn scan_interrupted(state: &ModPresentationState) -> (interrupted: bool)
    ensures
        interrupted == (state@.library_state is Loading || state@.root_state is Loading),
{
    let library_loading = match state.library_state() {
        ModLibraryState::Loading => true,
        _ => false,
    };
    let root_loading = match state.root_state() {
        ModRootState::Loading => true,
        _ => false,
    };
    library_loading || root_loading
}

/// The name an exported package is suggested under: its name and version
/// made safe for a file name, joined by a dash, with the ZIP extension.
pub open spec fn export_name(name: Seq<char>, version: Seq<char>) -> Seq<char> {
    package_filename(name) + "-"@ + package_filename(version) + ".zip"@
}

/// The file name suggested for exporting the package `name` at `version`.
pub fn export_file_name(name: &str, version: &str) -> (file_name: String)
    ensures
        file_name@ == export_name(name@, version@),
{
    let mut file_name = safe_package_filename(name);
    file_name.append("-");
    let version_part = safe_package_filename(version);
    file_name.append(version_part.as_str());
    file_name.append(".zip");
    file_name
}

/// The message of `count` selected package files.
pub open spec fn selected_files_text(count: nat) -> Seq<char> {
    "Selected "@ + decimal_digits(count) + " package "@ + if count == 1 {
        "file"@
    } else {
        "files"@
    }
}

/// The message of `count` selected package files.
pub fn selected_files_message(count: usize) -> (message: String)
    ensures
        message@ == selected_files_text(count as nat),
{
    let mut message = "Selected ".to_owned();
    let digits = unsigned_decimal_string(count as u64);
    message.append(digits.as_str());
    message.append(" package ");
    if count == 1 {
        message.append("file");
    } else {
        message.append("files");
    }
    message
}

/// The message of an imported package, new to the library or already in
/// it.
pub open spec fn imported_text(added: bool, name: Seq<char>, version: Seq<char>) -> Seq<char> {
    (if added {
        "Imported"@
    } else {
        "Already in the library"@
    }) + " "@ + name + " "@ + version
}

/// The message of the package `name` at `version` imported into the
/// library, or found there already.
pub fn imported_message(added: bool, name: &str, version: &str) -> (message: String)
    ensures
        message@ == imported_text(added, name@, version@),
{
    let mut message = if added {
        "Imported".to_owned()
    } else {
        "Already in the library".to_owned()
    };
    message.append(" ");
    message.append(name);
    message.append(" ");
    message.append(version);
    message
}

/// The message of a package created from game files and imported.
pub open spec fn exported_text(name: Seq<char>, version: Seq<char>) -> Seq<char> {
    "Exported and imported "@ + name + " "@ + version
}

/// The message of the package `name` at `version` exported and imported.
pub fn exported_message(name: &str, version: &str) -> (message: String)
    ensures
        message@ == exported_text(name@, version@),
{
    let mut message = "Exported and imported ".to_owned();
    message.append(name);
    message.append(" ");
    message.append(version);
    message
}

/// The operations that change or delete something already there (apply,
/// remove a package, uninstall, restore or delete a backup) are confirmed
/// first; importing, creating a package and creating a backup are not.
pub proof fn law_destructive_operations_are_confirmed()
    ensures
        is_confirmed(ModOperationKind::Apply),
        is_confirmed(ModOperationKind::RemovePackage),
        is_confirmed(ModOperationKind::Uninstall),
        is_confirmed(ModOperationKind::RestoreBackup),
        is_confirmed(ModOperationKind::DeleteBackup),
        !is_confirmed(ModOperationKind::Import),
        !is_confirmed(ModOperationKind::Create),
        !is_confirmed(ModOperationKind::CreateBackup),
{
}

/// A confirmed operation launches only on a target of its own kind: applying
/// and removing need a package, uninstalling an installation, restoring and
/// deleting a backup; the unconfirmed kinds and a missing target never
/// launch.
pub proof fn law_launches_need_a_target_of_their_kind(
    kind: ModOperationKind,
    target: Option<ModOperationTarget>,
)
    ensures
        target is None ==> !routable(kind, target),
        routable(kind, target) ==> is_confirmed(kind),
        (kind == ModOperationKind::Apply || kind == ModOperationKind::RemovePackage) ==> (routable(
            kind,
            target,
        ) <==> target matches Some(ModOperationTarget::Package(_))),
        kind == ModOperationKind::Uninstall ==> (routable(kind, target) <==> target matches Some(
            ModOperationTarget::Installation(_),
        )),
        (kind == ModOperationKind::RestoreBackup || kind == ModOperationKind::DeleteBackup) ==> (
        routable(kind, target) <==> target matches Some(ModOperationTarget::Backup(_))),
{
}

} // verus!
