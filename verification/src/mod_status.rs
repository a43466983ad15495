//! The Mods pane: its sections, the scans of the package library and of the
//! game folder, prompts and confirmations, and the one destructive operation
//! that may run at a time with its progress.

use vstd::prelude::*;
use vstd::string::*;

use crate::game::Game;
use crate::notices::{error_detail, format_error};

verus! {

/// A section of the Mods pane.
#[derive(Clone, Copy, Debug, PartialEq, Eq, Hash, Structural)]
pub enum ModSection {
    Installed,
    Library,
    Backups,
    Create,
}

/// The label of a section.
pub open spec fn section_label(section: ModSection) -> Seq<char> {
    match section {
        ModSection::Installed => "Installed"@,
        ModSection::Library => "Library"@,
        ModSection::Backups => "Backups"@,
        ModSection::Create => "Create"@,
    }
}

/// The element id of a section's control.
pub open spec fn section_element_id(section: ModSection) -> Seq<char> {
    match section {
        ModSection::Installed => "mods-section-installed"@,
        ModSection::Library => "mods-section-library"@,
        ModSection::Backups => "mods-section-backups"@,
        ModSection::Create => "mods-section-create"@,
    }
}

impl ModSection {
    /// The sections in display order.
    pub fn all() -> (sections: [ModSection; 4])
        ensures
            sections@ == seq![
                ModSection::Installed,
                ModSection::Library,
                ModSection::Backups,
                ModSection::Create,
            ],
    {
        let sections = [ModSection::Installed, ModSection::Library, ModSection::Backups, ModSection::Create];
        assert(sections@ =~= seq![
            ModSection::Installed,
            ModSection::Library,
            ModSection::Backups,
            ModSection::Create,
        ]);
        sections
    }

    /// The section's label.
    pub fn label(self) -> (label: &'static str)
        ensures
            label@ == section_label(self),
    {
        match self {
            ModSection::Installed => "Installed",
            ModSection::Library => "Library",
            ModSection::Backups => "Backups",
            ModSection::Create => "Create",
        }
    }

    /// The element id of the section's control.
    pub fn element_id(self) -> (id: &'static str)
        ensures
            id@ == section_element_id(self),
    {
        match self {
            ModSection::Installed => "mods-section-installed",
            ModSection::Library => "mods-section-library",
            ModSection::Backups => "mods-section-backups",
            ModSection::Create => "mods-section-create",
        }
    }
}

/// The number of a request of the pane.
#[derive(Clone, Copy, Debug, PartialEq, Eq, Hash, Structural)]
pub struct RequestID(pub u64);

impl RequestID {
    /// The request with number `value`.
    pub fn from_value(value: u64) -> (id: Self)
        ensures
            id.0 == value,
    {
        RequestID(value)
    }

    /// The request number.
    pub fn get(self) -> (value: u64)
        ensures
            value == self.0,
    {
        self.0
    }
}

/// The number after `n`, wrapping to zero after the largest `u64`.
pub open spec fn next_number(n: u64) -> u64 {
    if n == u64::MAX {
        0
    } else {
        (n + 1) as u64
    }
}

fn increment(n: u64) -> (next: u64)
    ensures
        next == next_number(n),
{
    n.wrapping_add(1)
}

/// A request of the pane with the context it was made in.
#[derive(Clone, Copy, Debug, PartialEq, Eq, Structural)]
pub struct ModRequestKey {
    pub request: RequestID,
    pub game: Game,
    pub root_revision: u64,
    pub library_revision: u64,
}

impl ModRequestKey {
    /// The request.
    pub fn request(self) -> (request: RequestID)
        ensures
            request == self.request,
    {
        self.request
    }

    /// The same key with its request number moved by `offset`, wrapping.
    pub fn with_request_offset(self, offset: u64) -> (key: Self)
        ensures
            key == (ModRequestKey {
                request: RequestID(vstd::wrapping::u64_specs::wrapping_add(self.request.0, offset)),
                ..self
            }),
    {
        ModRequestKey { request: RequestID::from_value(self.request.get().wrapping_add(offset)), ..self }
    }
}

/// What a scan covers.
#[derive(Clone, Copy, Debug, PartialEq, Eq, Structural)]
pub enum ModScanScope {
    LibraryOnly,
    Full,
}

/// The stable identity of a library package.
#[derive(Clone, Copy, Debug, PartialEq, Eq, Hash, Structural)]
pub struct ModPackageID(pub u64);

/// The stable identity of an installed mod.
#[derive(Clone, Copy, Debug, PartialEq, Eq, Hash, Structural)]
pub struct InstallationID(pub u64);

/// The stable identity of a backup.
#[derive(Clone, Copy, Debug, PartialEq, Eq, Hash, Structural)]
pub struct BackupID(pub u64);

/// The stable identity of a finished operation.
#[derive(Clone, Copy, Debug, PartialEq, Eq, Hash, Structural)]
pub struct OperationID(pub u64);

/// An identity that rows are selected by.
pub trait StableId: Copy + Sized {
    fn same(&self, other: &Self) -> (same: bool)
        ensures
            same == (*self == *other);
}

impl StableId for ModPackageID {
    fn same(&self, other: &Self) -> (same: bool) {
        self.0 == other.0
    }
}

impl StableId for InstallationID {
    fn same(&self, other: &Self) -> (same: bool) {
        self.0 == other.0
    }
}

impl StableId for BackupID {
    fn same(&self, other: &Self) -> (same: bool) {
        self.0 == other.0
    }
}

/// How an installed mod compares with the files it installed.
#[derive(Clone, Copy, Debug, PartialEq, Eq, Structural)]
pub enum InstalledModStatus {
    Clean,
    Modified,
    Missing,
}

/// A package of the library.
#[derive(Clone, Debug)]
pub struct ModPackageSnapshot {
    pub package_id: ModPackageID,
    pub name: String,
    pub version: String,
    pub author: Option<String>,
    pub description: Option<String>,
    pub game: Game,
    pub files: Vec<String>,
    pub compressed_bytes: u64,
    pub uncompressed_bytes: u64,
    pub file_count: u64,
}

/// A mod installed in the game folder.
#[derive(Clone, Debug)]
pub struct InstalledModSnapshot {
    pub installation_id: InstallationID,
    pub package_id: ModPackageID,
    pub operation_id: OperationID,
    pub name: String,
    pub version: String,
    pub game: Game,
    pub installed_at: String,
    pub status: Option<InstalledModStatus>,
    pub files: Vec<String>,
}

/// A backup of game files.
#[derive(Clone, Debug)]
pub struct BackupSnapshot {
    pub backup_id: BackupID,
    pub label: Option<String>,
    pub game: Game,
    pub created_at: String,
    pub file_count: u64,
    pub total_bytes: u64,
}

/// The part of the pane that an issue concerns.
#[derive(Clone, Copy, Debug, PartialEq, Eq, Structural)]
pub enum ModIssueScope {
    Installed,
    Library,
    Backups,
    Create,
    Root,
    Operation,
}

/// Whether an issue of `scope` is shown in `section`: operation issues
/// everywhere, game-folder issues outside the library, and the others in
/// their own section.
pub open spec fn scope_belongs_to(scope: ModIssueScope, section: ModSection) -> bool {
    match scope {
        ModIssueScope::Operation => true,
        ModIssueScope::Root => section != ModSection::Library,
        ModIssueScope::Installed => section == ModSection::Installed,
        ModIssueScope::Library => section == ModSection::Library,
        ModIssueScope::Backups => section == ModSection::Backups,
        ModIssueScope::Create => section == ModSection::Create,
    }
}

impl ModIssueScope {
    /// Whether an issue of this scope is shown in `section`.
    pub fn belongs_to(self, section: ModSection) -> (belongs: bool)
        ensures
            belongs == scope_belongs_to(self, section),
    {
        match self {
            ModIssueScope::Operation => true,
            ModIssueScope::Root => section != ModSection::Library,
            ModIssueScope::Installed => section == ModSection::Installed,
            ModIssueScope::Library => section == ModSection::Library,
            ModIssueScope::Backups => section == ModSection::Backups,
            ModIssueScope::Create => section == ModSection::Create,
        }
    }
}

/// The paths that a failed operation left in each state.
#[derive(Clone, Debug)]
pub struct RecoveryReport {
    pub committed: Vec<String>,
    pub rolled_back: Vec<String>,
    pub rollback_failed: Vec<String>,
    pub unchanged: Vec<String>,
}

/// `label: path` for each path of a group.
pub open spec fn labelled_paths(label: Seq<char>, paths: Seq<String>) -> Seq<Seq<char>> {
    paths.map_values(|path: String| label + ": "@ + path@)
}

/// The recovery lines of a report: committed, rolled back, rollback failed
/// and unchanged paths, in that order, each with its label.
pub open spec fn recovery_lines(report: RecoveryReport) -> Seq<Seq<char>> {
    labelled_paths("Committed"@, report.committed@) + labelled_paths(
        "Rolled back"@,
        report.rolled_back@,
    ) + labelled_paths("Rollback failed"@, report.rollback_failed@) + labelled_paths(
        "Unchanged"@,
        report.unchanged@,
    )
}

fn push_labelled(lines: &mut Vec<String>, label: &str, paths: &Vec<String>)
    ensures
        final(lines)@.map_values(|line: String| line@) == old(lines)@.map_values(
            |line: String| line@,
        ) + labelled_paths(label@, paths@),
{
    let ghost start = old(lines)@.map_values(|line: String| line@);
    let mut i: usize = 0;
    while i < paths.len()
        invariant
            i <= paths@.len(),
            lines@.map_values(|line: String| line@) == start + labelled_paths(
                label@,
                paths@.take(i as int),
            ),
        decreases paths.len() - i,
    {
        let mut line = label.to_owned();
        line.append(": ");
        line.append(paths[i].as_str());
        let ghost text = line@;
        assert(text == label@ + ": "@ + paths@[i as int]@);
        let ghost before = lines@;
        lines.push(line);
        assert(lines@.map_values(|line: String| line@) =~= before.map_values(
            |line: String| line@,
        ).push(text));
        assert(paths@.take(i + 1) =~= paths@.take(i as int).push(paths@[i as int]));
        assert(labelled_paths(label@, paths@.take(i + 1)) =~= labelled_paths(
            label@,
            paths@.take(i as int),
        ).push(text));
        assert(lines@.map_values(|line: String| line@) =~= start + labelled_paths(
            label@,
            paths@.take(i + 1),
        ));
        i = i + 1;
    }
    assert(paths@.take(paths@.len() as int) =~= paths@);
}

/// The recovery lines of a failed operation's report, if it has one.
pub fn recovery_paths(report: Option<&RecoveryReport>) -> (lines: Vec<String>)
    ensures
        lines@.map_values(|line: String| line@) == match report {
            Some(r) => recovery_lines(*r),
            None => Seq::empty(),
        },
{
    let mut lines: Vec<String> = Vec::new();
    match report {
        Some(report) => {
            assert(lines@.map_values(|line: String| line@) =~= Seq::<Seq<char>>::empty());
            push_labelled(&mut lines, "Committed", &report.committed);
            push_labelled(&mut lines, "Rolled back", &report.rolled_back);
            push_labelled(&mut lines, "Rollback failed", &report.rollback_failed);
            push_labelled(&mut lines, "Unchanged", &report.unchanged);
            assert(lines@.map_values(|line: String| line@) =~= recovery_lines(*report));
        },
        None => {
            assert(lines@.map_values(|line: String| line@) =~= Seq::<Seq<char>>::empty());
        },
    }
    lines
}

/// An issue shown in the pane.
#[derive(Clone, Debug)]
pub struct ModIssueSnapshot {
    pub scope: ModIssueScope,
    pub identity: String,
    pub title: String,
    pub detail: String,
    pub recovery_paths: Vec<String>,
}

impl ModIssueSnapshot {
    /// The issue for a failure whose error chain is `chain` and whose
    /// recovery report, if any, is `recovery`.
    pub fn from_error(
        scope: ModIssueScope,
        identity: &str,
        title: &str,
        chain: &Vec<String>,
        recovery: Option<&RecoveryReport>,
    ) -> (issue: Self)
        ensures
            issue.scope == scope,
            issue.identity@ == identity@,
            issue.title@ == title@,
            issue.detail@ == error_detail(chain@),
            issue.recovery_paths@.map_values(|line: String| line@) == match recovery {
                Some(r) => recovery_lines(*r),
                None => Seq::empty(),
            },
    {
        ModIssueSnapshot {
            scope,
            identity: identity.to_owned(),
            title: title.to_owned(),
            detail: format_error(chain),
            recovery_paths: recovery_paths(recovery),
        }
    }
}

/// Rows of a collection with the issues found while listing them.
#[derive(Clone, Debug)]
pub struct ModCollectionSnapshot<T> {
    pub rows: Vec<T>,
    pub issues: Vec<ModIssueSnapshot>,
}

impl<T> ModCollectionSnapshot<T> {
    /// A collection of `rows` and `issues`.
    pub fn new(rows: Vec<T>, issues: Vec<ModIssueSnapshot>) -> (collection: Self)
        ensures
            collection.rows == rows,
            collection.issues == issues,
    {
        ModCollectionSnapshot { rows, issues }
    }
}

/// The game-folder part of a scan result.
#[derive(Clone, Debug)]
pub enum ModRootCompletion {
    NotRequested,
    MissingRoot,
    Failed(ModIssueSnapshot),
    Ready {
        configured_root: String,
        installations: ModCollectionSnapshot<InstalledModSnapshot>,
        backups: ModCollectionSnapshot<BackupSnapshot>,
    },
}

/// The result of a scan.
#[derive(Debug)]
pub struct ModScanCompletion {
    library: Result<ModCollectionSnapshot<ModPackageSnapshot>, ModIssueSnapshot>,
    root: ModRootCompletion,
}

impl ModScanCompletion {
    pub closed spec fn library_spec(&self) -> Result<ModCollectionSnapshot<ModPackageSnapshot>, ModIssueSnapshot> {
        self.library
    }

    pub closed spec fn root_spec(&self) -> ModRootCompletion {
        self.root
    }

    /// A scan result.
    pub fn new(
        library: Result<ModCollectionSnapshot<ModPackageSnapshot>, ModIssueSnapshot>,
        root: ModRootCompletion,
    ) -> (completion: Self)
        ensures
            completion.library_spec() == library,
            completion.root_spec() == root,
    {
        ModScanCompletion { library, root }
    }
}

/// The state of the library listing.
#[derive(Clone, Debug)]
pub enum ModLibraryState {
    Idle,
    Loading,
    Ready(ModCollectionSnapshot<ModPackageSnapshot>),
    Failed(ModIssueSnapshot),
}

/// The state of the game-folder listing.
#[derive(Clone, Debug)]
pub enum ModRootState {
    Idle,
    Loading,
    MissingRoot,
    Ready {
        configured_root: String,
        installations: ModCollectionSnapshot<InstalledModSnapshot>,
        backups: ModCollectionSnapshot<BackupSnapshot>,
    },
    Failed(ModIssueSnapshot),
}

/// The fields of the package being created.
#[derive(Clone, Debug)]
pub struct ModCreateDraft {
    pub name: String,
    pub version: String,
    pub author: String,
    pub description: String,
    pub backup_label: String,
    pub files: Vec<String>,
}

impl ModCreateDraft {
    /// An empty draft.
    pub fn new() -> (draft: Self)
        ensures
            draft.name@.len() == 0,
            draft.version@.len() == 0,
            draft.author@.len() == 0,
            draft.description@.len() == 0,
            draft.backup_label@.len() == 0,
            draft.files@.len() == 0,
    {
        ModCreateDraft {
            name: String::new(),
            version: String::new(),
            author: String::new(),
            description: String::new(),
            backup_label: String::new(),
            files: Vec::new(),
        }
    }
}

/// A text field of the create draft.
#[derive(Clone, Copy, Debug, PartialEq, Eq, Structural)]
pub enum ModCreateField {
    Name,
    Version,
    Author,
    Description,
    BackupLabel,
}

/// A destructive operation of the pane.
#[derive(Clone, Copy, Debug, PartialEq, Eq, Structural)]
pub enum ModOperationKind {
    Import,
    Create,
    Apply,
    Uninstall,
    CreateBackup,
    RestoreBackup,
    DeleteBackup,
    RemovePackage,
}

/// The label of an operation.
pub open spec fn operation_label(kind: ModOperationKind) -> Seq<char> {
    match kind {
        ModOperationKind::Import => "Import package"@,
        ModOperationKind::Create => "Create package"@,
        ModOperationKind::Apply => "Apply package"@,
        ModOperationKind::Uninstall => "Uninstall mod"@,
        ModOperationKind::CreateBackup => "Create backup"@,
        ModOperationKind::RestoreBackup => "Restore backup"@,
        ModOperationKind::DeleteBackup => "Delete backup"@,
        ModOperationKind::RemovePackage => "Remove package"@,
    }
}

impl ModOperationKind {
    /// The operation's label.
    pub fn label(self) -> (label: &'static str)
        ensures
            label@ == operation_label(self),
    {
        match self {
            ModOperationKind::Import => "Import package",
            ModOperationKind::Create => "Create package",
            ModOperationKind::Apply => "Apply package",
            ModOperationKind::Uninstall => "Uninstall mod",
            ModOperationKind::CreateBackup => "Create backup",
            ModOperationKind::RestoreBackup => "Restore backup",
            ModOperationKind::DeleteBackup => "Delete backup",
            ModOperationKind::RemovePackage => "Remove package",
        }
    }
}

/// A file prompt of the pane.
#[derive(Clone, Copy, Debug, PartialEq, Eq, Structural)]
pub enum ModPromptKind {
    Import,
    SelectFiles,
    Export,
}

/// What an operation acts on.
#[derive(Clone, Copy, Debug, PartialEq, Eq, Structural)]
pub enum ModOperationTarget {
    Package(ModPackageID),
    Installation(InstallationID),
    Backup(BackupID),
}

/// An operation awaiting confirmation.
#[derive(Clone, Debug)]
pub struct ModPendingConfirmation {
    pub operation: ModOperationKind,
    pub target: ModOperationTarget,
    pub subject: String,
    pub consequence: String,
    pub key: ModRequestKey,
}

/// A confirmed operation to launch.
#[derive(Clone, Copy, Debug, PartialEq, Eq, Structural)]
pub struct ModOperationLaunch {
    pub kind: ModOperationKind,
    pub target: Option<ModOperationTarget>,
    pub key: ModRequestKey,
}

/// A phase of a mod operation.
#[derive(Clone, Copy, Debug, PartialEq, Eq, Structural)]
pub enum ModProgressPhase {
    CopyingPackage,
    CreatingPackage,
    InspectingPackage,
    PublishingPackage,
    StagingFiles,
    PublishingInstallation,
    StagingUninstall,
    PublishingUninstall,
    PublishingBackup,
    RollingBack,
}

/// Progress reported by a running operation.
#[derive(Clone, Debug)]
pub struct ModProgress {
    pub phase: ModProgressPhase,
    pub completed: u64,
    pub total: u64,
    pub path: Option<String>,
}

/// Whether an operation may still be canceled in `phase`: not while it
/// publishes its result or rolls back.
pub open spec fn phase_allows_cancel(phase: ModProgressPhase) -> bool {
    !(phase == ModProgressPhase::PublishingPackage || phase
        == ModProgressPhase::PublishingInstallation || phase
        == ModProgressPhase::PublishingUninstall || phase == ModProgressPhase::PublishingBackup
        || phase == ModProgressPhase::RollingBack)
}

/// Whether an operation may still be canceled in `phase`.
pub fn progress_phase_allows_cancel(phase: ModProgressPhase) -> (allows: bool)
    ensures
        allows == phase_allows_cancel(phase),
{
    match phase {
        ModProgressPhase::PublishingPackage
        | ModProgressPhase::PublishingInstallation
        | ModProgressPhase::PublishingUninstall
        | ModProgressPhase::PublishingBackup
        | ModProgressPhase::RollingBack => false,
        _ => true,
    }
}

/// The progress the pane shows for the running operation.
#[derive(Clone, Debug)]
pub struct ModProgressSnapshot {
    pub sequence: u64,
    pub phase_epoch: u64,
    pub operation: ModOperationKind,
    pub phase: ModProgressPhase,
    pub completed: u64,
    pub total: u64,
    pub path: Option<String>,
    pub can_cancel: bool,
    pub cancel_requested: bool,
}

/// The running operation.
#[derive(Clone, Copy, Debug, PartialEq, Eq, Structural)]
pub struct ActiveModOperation {
    pub kind: ModOperationKind,
    pub key: ModRequestKey,
}

/// Whether a context update changed the pane's context.
#[derive(Clone, Copy, Debug, PartialEq, Eq, Structural)]
pub enum ModContextChange {
    Unchanged,
    Changed,
}

/// The presentation state of the Mods pane.
#[derive(Debug)]
pub struct ModPresentationState {
    section: ModSection,
    game: Game,
    root_revision: u64,
    library_revision: u64,
    next_request_id: u64,
    active_scan: Option<(ModRequestKey, ModScanScope)>,
    active_prompt: Option<(ModPromptKind, ModRequestKey)>,
    library_state: ModLibraryState,
    root_state: ModRootState,
    selected_package: Option<ModPackageID>,
    selected_installation: Option<InstallationID>,
    selected_backup: Option<BackupID>,
    create_draft: ModCreateDraft,
    pending_confirmation: Option<ModPendingConfirmation>,
    progress: Option<ModProgressSnapshot>,
    active_operation: Option<ActiveModOperation>,
    operation_issues: Vec<ModIssueSnapshot>,
}

/// The abstract [`ModPresentationState`].
pub struct ModStateView {
    pub section: ModSection,
    pub game: Game,
    pub root_revision: u64,
    pub library_revision: u64,
    pub next_request_id: u64,
    pub active_scan: Option<(ModRequestKey, ModScanScope)>,
    pub active_prompt: Option<(ModPromptKind, ModRequestKey)>,
    pub library_state: ModLibraryState,
    pub root_state: ModRootState,
    pub selected_package: Option<ModPackageID>,
    pub selected_installation: Option<InstallationID>,
    pub selected_backup: Option<BackupID>,
    pub create_draft: ModCreateDraft,
    pub pending_confirmation: Option<ModPendingConfirmation>,
    pub progress: Option<ModProgressSnapshot>,
    pub active_operation: Option<ActiveModOperation>,
    pub operation_issues: Seq<ModIssueSnapshot>,
}

impl View for ModPresentationState {
    type V = ModStateView;

    closed spec fn view(&self) -> ModStateView {
        ModStateView {
            section: self.section,
            game: self.game,
            root_revision: self.root_revision,
            library_revision: self.library_revision,
            next_request_id: self.next_request_id,
            active_scan: self.active_scan,
            active_prompt: self.active_prompt,
            library_state: self.library_state,
            root_state: self.root_state,
            selected_package: self.selected_package,
            selected_installation: self.selected_installation,
            selected_backup: self.selected_backup,
            create_draft: self.create_draft,
            pending_confirmation: self.pending_confirmation,
            progress: self.progress,
            active_operation: self.active_operation,
            operation_issues: self.operation_issues@,
        }
    }
}

/// The key of the next request: a fresh number in the current context.
pub open spec fn next_key_spec(s: ModStateView) -> ModRequestKey {
    ModRequestKey {
        request: RequestID(next_number(s.next_request_id)),
        game: s.game,
        root_revision: s.root_revision,
        library_revision: s.library_revision,
    }
}

/// Whether `key` is the newest request of the current context.
pub open spec fn key_is_current_spec(s: ModStateView, key: ModRequestKey) -> bool {
    &&& key.request.0 == s.next_request_id
    &&& key.game == s.game
    &&& key.root_revision == s.root_revision
    &&& key.library_revision == s.library_revision
}

/// The selection that a refreshed list keeps: the same identity when it is
/// still listed, else the first listed row, else none.
pub open spec fn reconcile_spec<T>(selected: Option<T>, values: Seq<T>) -> Option<T> {
    match selected {
        Some(s) => if values.contains(s) {
            Some(s)
        } else if values.len() > 0 {
            Some(values[0])
        } else {
            None
        },
        None => if values.len() > 0 {
            Some(values[0])
        } else {
            None
        },
    }
}

/// The identities of library rows.
pub open spec fn package_ids(rows: Seq<ModPackageSnapshot>) -> Seq<ModPackageID> {
    rows.map_values(|row: ModPackageSnapshot| row.package_id)
}

/// The identities of installed rows.
pub open spec fn installation_ids(rows: Seq<InstalledModSnapshot>) -> Seq<InstallationID> {
    rows.map_values(|row: InstalledModSnapshot| row.installation_id)
}

/// The identities of backup rows.
pub open spec fn backup_ids(rows: Seq<BackupSnapshot>) -> Seq<BackupID> {
    rows.map_values(|row: BackupSnapshot| row.backup_id)
}

/// The selections after a scan: a ready list reconciles its selection, a
/// list neither ready nor loading clears it.
pub open spec fn reconciled(s: ModStateView) -> ModStateView {
    let s1 = match s.library_state {
        ModLibraryState::Ready(library) => ModStateView {
            selected_package: reconcile_spec(s.selected_package, package_ids(library.rows@)),
            ..s
        },
        ModLibraryState::Loading => s,
        _ => ModStateView { selected_package: None, ..s },
    };
    match s1.root_state {
        ModRootState::Ready { installations, backups, .. } => ModStateView {
            selected_installation: reconcile_spec(
                s1.selected_installation,
                installation_ids(installations.rows@),
            ),
            selected_backup: reconcile_spec(s1.selected_backup, backup_ids(backups.rows@)),
            ..s1
        },
        ModRootState::Loading => s1,
        _ => ModStateView { selected_installation: None, selected_backup: None, ..s1 },
    }
}

/// The library state that a scan result gives.
pub open spec fn library_state_of(
    library: Result<ModCollectionSnapshot<ModPackageSnapshot>, ModIssueSnapshot>,
) -> ModLibraryState {
    match library {
        Ok(collection) => ModLibraryState::Ready(collection),
        Err(issue) => ModLibraryState::Failed(issue),
    }
}

/// The game-folder state that a scan result gives.
pub open spec fn root_state_of(root: ModRootCompletion) -> ModRootState {
    match root {
        ModRootCompletion::NotRequested => ModRootState::Idle,
        ModRootCompletion::MissingRoot => ModRootState::MissingRoot,
        ModRootCompletion::Failed(issue) => ModRootState::Failed(issue),
        ModRootCompletion::Ready { configured_root, installations, backups } => ModRootState::Ready {
            configured_root,
            installations,
            backups,
        },
    }
}

/// The pane after [`ModPresentationState::begin_scan`].
pub open spec fn after_begin_scan(s: ModStateView, scope: ModScanScope, root_configured: bool) -> ModStateView {
    let key = next_key_spec(s);
    ModStateView {
        next_request_id: key.request.0,
        active_scan: Some((key, scope)),
        active_prompt: None,
        pending_confirmation: None,
        library_state: ModLibraryState::Loading,
        root_state: if scope == ModScanScope::Full {
            if root_configured {
                ModRootState::Loading
            } else {
                ModRootState::MissingRoot
            }
        } else {
            s.root_state
        },
        ..s
    }
}

/// Whether a scan result for `key` is accepted: it is the active scan and
/// its key is current.
pub open spec fn scan_is_current(s: ModStateView, key: ModRequestKey) -> bool {
    s.active_scan matches Some((active, _)) && active == key && key_is_current_spec(s, key)
}

/// The pane after [`ModPresentationState::finish_scan`].
pub open spec fn after_finish_scan(
    s: ModStateView,
    key: ModRequestKey,
    library: Result<ModCollectionSnapshot<ModPackageSnapshot>, ModIssueSnapshot>,
    root: ModRootCompletion,
) -> ModStateView {
    if !scan_is_current(s, key) {
        s
    } else {
        let scope = s.active_scan.unwrap().1;
        reconciled(
            ModStateView {
                active_scan: None,
                library_state: library_state_of(library),
                root_state: if scope == ModScanScope::Full {
                    root_state_of(root)
                } else {
                    s.root_state
                },
                ..s
            },
        )
    }
}

/// The pane after [`ModPresentationState::set_context`] moved it to a new
/// game or root revision: everything tied to the old context is dropped.
pub open spec fn after_context_change(s: ModStateView, game: Game, root_revision: u64) -> ModStateView {
    ModStateView {
        game,
        root_revision,
        active_scan: None,
        active_prompt: None,
        library_state: ModLibraryState::Idle,
        root_state: ModRootState::Idle,
        selected_installation: None,
        selected_backup: None,
        pending_confirmation: None,
        progress: None,
        active_operation: None,
        operation_issues: Seq::empty(),
        ..s
    }
}

/// The pane after [`ModPresentationState::library_changed`].
pub open spec fn after_library_changed(s: ModStateView) -> ModStateView {
    ModStateView {
        library_revision: next_number(s.library_revision),
        active_scan: None,
        active_prompt: None,
        library_state: ModLibraryState::Idle,
        selected_package: None,
        pending_confirmation: None,
        progress: None,
        active_operation: None,
        ..s
    }
}

/// The pane after [`ModPresentationState::begin_prompt`] started a prompt.
pub open spec fn after_begin_prompt(s: ModStateView, kind: ModPromptKind) -> ModStateView {
    let key = next_key_spec(s);
    ModStateView {
        next_request_id: key.request.0,
        active_scan: None,
        active_prompt: Some((kind, key)),
        pending_confirmation: None,
        ..s
    }
}

/// The pane after [`ModPresentationState::begin_confirmation`] opened one.
pub open spec fn after_begin_confirmation(
    s: ModStateView,
    operation: ModOperationKind,
    target: ModOperationTarget,
    subject: String,
    consequence: String,
) -> ModStateView {
    let key = next_key_spec(s);
    ModStateView {
        next_request_id: key.request.0,
        active_scan: None,
        active_prompt: None,
        pending_confirmation: Some(
            ModPendingConfirmation { operation, target, subject, consequence, key },
        ),
        ..s
    }
}

/// The pane after [`ModPresentationState::begin_operation`] started one.
pub open spec fn after_begin_operation(s: ModStateView, kind: ModOperationKind) -> ModStateView {
    let key = next_key_spec(s);
    ModStateView {
        next_request_id: key.request.0,
        active_scan: None,
        active_prompt: None,
        pending_confirmation: None,
        active_operation: Some(ActiveModOperation { kind, key }),
        progress: None,
        operation_issues: Seq::empty(),
        ..s
    }
}

/// Whether a progress report is stale: not newer than the shown one, from
/// an earlier phase epoch, or, within the shown epoch, from another phase
/// or with less work completed.
pub open spec fn progress_is_stale(
    current: Option<ModProgressSnapshot>,
    sequence: u64,
    phase_epoch: u64,
    progress: ModProgress,
) -> bool {
    match current {
        Some(c) => sequence <= c.sequence || phase_epoch < c.phase_epoch || (phase_epoch
            == c.phase_epoch && (c.phase != progress.phase || progress.completed < c.completed)),
        None => false,
    }
}

/// Whether [`ModPresentationState::update_progress`] accepts a report.
pub open spec fn progress_accepted(
    s: ModStateView,
    key: ModRequestKey,
    sequence: u64,
    phase_epoch: u64,
    progress: ModProgress,
) -> bool {
    &&& s.active_operation matches Some(operation) && operation.key == key
    &&& key_is_current_spec(s, key)
    &&& !progress_is_stale(s.progress, sequence, phase_epoch, progress)
}

/// The progress shown after an accepted report: a requested cancellation
/// persists, and cancel stays possible only where the phase allows it.
pub open spec fn reported_progress(
    s: ModStateView,
    sequence: u64,
    phase_epoch: u64,
    progress: ModProgress,
) -> ModProgressSnapshot {
    let cancel_requested = s.progress matches Some(c) && c.cancel_requested;
    ModProgressSnapshot {
        sequence,
        phase_epoch,
        operation: s.active_operation.unwrap().kind,
        phase: progress.phase,
        completed: progress.completed,
        total: progress.total,
        path: progress.path,
        can_cancel: phase_allows_cancel(progress.phase) && !cancel_requested,
        cancel_requested,
    }
}

/// Whether [`ModPresentationState::finish_operation`] accepts `key`.
pub open spec fn operation_is_current(s: ModStateView, key: ModRequestKey) -> bool {
    s.active_operation matches Some(operation) && operation.key == key && key_is_current_spec(
        s,
        key,
    )
}

/// The pane as it starts: the Installed section of a fresh context, with
/// nothing listed, selected, pending or running.
pub open spec fn is_initial(s: ModStateView) -> bool {
    &&& s.section == ModSection::Installed
    &&& s.game == Game::Crusaders
    &&& s.root_revision == 0
    &&& s.library_revision == 0
    &&& s.next_request_id == 0
    &&& s.active_scan is None
    &&& s.active_prompt is None
    &&& s.library_state is Idle
    &&& s.root_state is Idle
    &&& s.selected_package is None
    &&& s.selected_installation is None
    &&& s.selected_backup is None
    &&& s.create_draft.name@.len() == 0
    &&& s.create_draft.version@.len() == 0
    &&& s.create_draft.author@.len() == 0
    &&& s.create_draft.description@.len() == 0
    &&& s.create_draft.backup_label@.len() == 0
    &&& s.create_draft.files@.len() == 0
    &&& s.pending_confirmation is None
    &&& s.progress is None
    &&& s.active_operation is None
    &&& s.operation_issues.len() == 0
}

/// Whether [`ModPresentationState::finish_prompt`] accepts `key` for `kind`.
pub open spec fn prompt_is_current(s: ModStateView, kind: ModPromptKind, key: ModRequestKey) -> bool {
    s.active_prompt == Some((kind, key)) && key_is_current_spec(s, key)
}

/// What [`ModPresentationState::confirm_operation`] launches: the pending
/// operation, when no operation runs and its key is current.
pub open spec fn confirmed_launch(s: ModStateView) -> Option<ModOperationLaunch> {
    match s.pending_confirmation {
        Some(p) => if s.active_operation is None && key_is_current_spec(s, p.key) {
            Some(ModOperationLaunch { kind: p.operation, target: Some(p.target), key: p.key })
        } else {
            None
        },
        None => None,
    }
}

/// The pane after [`ModPresentationState::confirm_operation`]: the pending
/// confirmation is gone, and a launched operation runs with fresh progress
/// and no issues.
pub open spec fn after_confirm(s: ModStateView) -> ModStateView {
    match confirmed_launch(s) {
        Some(launch) => ModStateView {
            pending_confirmation: None,
            active_operation: Some(ActiveModOperation { kind: launch.kind, key: launch.key }),
            progress: None,
            operation_issues: Seq::empty(),
            ..s
        },
        None => ModStateView { pending_confirmation: None, ..s },
    }
}

/// The pane after an accepted [`ModPresentationState::update_progress`].
pub open spec fn after_progress(
    s: ModStateView,
    sequence: u64,
    phase_epoch: u64,
    progress: ModProgress,
) -> ModStateView {
    ModStateView { progress: Some(reported_progress(s, sequence, phase_epoch, progress)), ..s }
}

/// Whether [`ModPresentationState::request_cancellation`] is accepted: the
/// shown progress still allows it and none was requested.
pub open spec fn cancellation_accepted(s: ModStateView) -> bool {
    s.progress matches Some(p) && p.can_cancel && !p.cancel_requested
}

/// The pane after an accepted cancellation request.
pub open spec fn after_cancellation(s: ModStateView) -> ModStateView {
    ModStateView {
        progress: Some(
            ModProgressSnapshot { cancel_requested: true, can_cancel: false, ..s.progress.unwrap() },
        ),
        ..s
    }
}

/// The pane after an accepted [`ModPresentationState::finish_operation`].
pub open spec fn after_finish_operation(s: ModStateView) -> ModStateView {
    ModStateView { active_operation: None, progress: None, ..s }
}

fn reconcile_id<T: StableId>(selected: Option<T>, values: &Vec<T>) -> (kept: Option<T>)
    ensures
        kept == reconcile_spec(selected, values@),
{
    match selected {
        Some(s) => {
            let mut i: usize = 0;
            while i < values.len()
                invariant
                    selected == Some(s),
                    i <= values@.len(),
                    forall|j: int| 0 <= j < i ==> values@[j] != s,
                decreases values.len() - i,
            {
                if values[i].same(&s) {
                    assert(values@[i as int] == s);
                    assert(values@.contains(s));
                    return Some(s);
                }
                i = i + 1;
            }
            if values.len() > 0 {
                Some(values[0])
            } else {
                None
            }
        },
        None => if values.len() > 0 {
            Some(values[0])
        } else {
            None
        },
    }
}

fn package_id_list(rows: &Vec<ModPackageSnapshot>) -> (ids: Vec<ModPackageID>)
    ensures
        ids@ == package_ids(rows@),
{
    let mut ids: Vec<ModPackageID> = Vec::new();
    let mut i: usize = 0;
    while i < rows.len()
        invariant
            i <= rows@.len(),
            ids@ == package_ids(rows@.take(i as int)),
        decreases rows.len() - i,
    {
        ids.push(rows[i].package_id);
        assert(package_ids(rows@.take(i + 1)) =~= package_ids(rows@.take(i as int)).push(
            rows@[i as int].package_id,
        ));
        i = i + 1;
    }
    assert(rows@.take(rows@.len() as int) =~= rows@);
    ids
}

fn installation_id_list(rows: &Vec<InstalledModSnapshot>) -> (ids: Vec<InstallationID>)
    ensures
        ids@ == installation_ids(rows@),
{
    let mut ids: Vec<InstallationID> = Vec::new();
    let mut i: usize = 0;
    while i < rows.len()
        invariant
            i <= rows@.len(),
            ids@ == installation_ids(rows@.take(i as int)),
        decreases rows.len() - i,
    {
        ids.push(rows[i].installation_id);
        assert(installation_ids(rows@.take(i + 1)) =~= installation_ids(rows@.take(i as int)).push(
            rows@[i as int].installation_id,
        ));
        i = i + 1;
    }
    assert(rows@.take(rows@.len() as int) =~= rows@);
    ids
}

fn backup_id_list(rows: &Vec<BackupSnapshot>) -> (ids: Vec<BackupID>)
    ensures
        ids@ == backup_ids(rows@),
{
    let mut ids: Vec<BackupID> = Vec::new();
    let mut i: usize = 0;
    while i < rows.len()
        invariant
            i <= rows@.len(),
            ids@ == backup_ids(rows@.take(i as int)),
        decreases rows.len() - i,
    {
        ids.push(rows[i].backup_id);
        assert(backup_ids(rows@.take(i + 1)) =~= backup_ids(rows@.take(i as int)).push(
            rows@[i as int].backup_id,
        ));
        i = i + 1;
    }
    assert(rows@.take(rows@.len() as int) =~= rows@);
    ids
}


impl Default for ModPresentationState {
    fn default() -> (state: Self)
        ensures
            is_initial(state@),
    {
        ModPresentationState::new()
    }
}

/// The position of the first `value` in `values`.
fn position_of<T: StableId>(values: &Vec<T>, value: T) -> (found: Option<usize>)
    ensures
        match found {
            Some(i) => i < values@.len() && values@[i as int] == value && forall|j: int|
                0 <= j < i ==> values@[j] != value,
            None => !values@.contains(value),
        },
{
    let mut i: usize = 0;
    while i < values.len()
        invariant
            i <= values@.len(),
            forall|j: int| 0 <= j < i ==> values@[j] != value,
        decreases values.len() - i,
    {
        if values[i].same(&value) {
            return Some(i);
        }
        i = i + 1;
    }
    None
}

/// The first row of `ids` whose identity is `id`, as a position.
pub open spec fn first_position<T>(ids: Seq<T>, id: T, position: int) -> bool {
    &&& 0 <= position < ids.len()
    &&& ids[position] == id
    &&& forall|j: int| 0 <= j < position ==> ids[j] != id
}

impl ModPresentationState {
    /// A pane in its starting state.
    pub fn new() -> (state: Self)
        ensures
            is_initial(state@),
    {
        ModPresentationState {
            section: ModSection::Installed,
            game: Game::Crusaders,
            root_revision: 0,
            library_revision: 0,
            next_request_id: 0,
            active_scan: None,
            active_prompt: None,
            library_state: ModLibraryState::Idle,
            root_state: ModRootState::Idle,
            selected_package: None,
            selected_installation: None,
            selected_backup: None,
            create_draft: ModCreateDraft::new(),
            pending_confirmation: None,
            progress: None,
            active_operation: None,
            operation_issues: Vec::new(),
        }
    }

    /// The shown section.
    pub fn section(&self) -> (section: ModSection)
        ensures
            section == self@.section,
    {
        self.section
    }

    /// Shows `section`; nothing else changes.
    pub fn select_section(&mut self, section: ModSection)
        ensures
            final(self)@ == (ModStateView { section, ..old(self)@ }),
    {
        self.section = section;
    }

    /// The game of the current context.
    pub fn game(&self) -> (game: Game)
        ensures
            game == self@.game,
    {
        self.game
    }

    /// The game-folder revision of the current context.
    pub fn root_revision(&self) -> (revision: u64)
        ensures
            revision == self@.root_revision,
    {
        self.root_revision
    }

    /// The library revision of the current context.
    pub fn library_revision(&self) -> (revision: u64)
        ensures
            revision == self@.library_revision,
    {
        self.library_revision
    }

    /// The library listing.
    pub fn library_state(&self) -> (state: &ModLibraryState)
        ensures
            *state == self@.library_state,
    {
        &self.library_state
    }

    /// The game-folder listing.
    pub fn root_state(&self) -> (state: &ModRootState)
        ensures
            *state == self@.root_state,
    {
        &self.root_state
    }

    /// The selected package.
    pub fn selected_package(&self) -> (selected: Option<ModPackageID>)
        ensures
            selected == self@.selected_package,
    {
        self.selected_package
    }

    /// The selected installed mod.
    pub fn selected_installation(&self) -> (selected: Option<InstallationID>)
        ensures
            selected == self@.selected_installation,
    {
        self.selected_installation
    }

    /// The selected backup.
    pub fn selected_backup(&self) -> (selected: Option<BackupID>)
        ensures
            selected == self@.selected_backup,
    {
        self.selected_backup
    }

    /// The first listed package with identity `package_id`, if the library
    /// is listed.
    pub fn package(&self, package_id: ModPackageID) -> (found: Option<&ModPackageSnapshot>)
        ensures
            match self@.library_state {
                ModLibraryState::Ready(library) => match found {
                    Some(row) => exists|i: int|
                        first_position(package_ids(library.rows@), package_id, i) && *row
                            == library.rows@[i],
                    None => !package_ids(library.rows@).contains(package_id),
                },
                _ => found is None,
            },
    {
        match &self.library_state {
            ModLibraryState::Ready(library) => {
                let ids = package_id_list(&library.rows);
                match position_of(&ids, package_id) {
                    Some(i) => {
                        assert(first_position(package_ids(library.rows@), package_id, i as int));
                        Some(&library.rows[i])
                    },
                    None => None,
                }
            },
            _ => None,
        }
    }

    /// The first listed installed mod with identity `installation_id`, if
    /// the game folder is listed.
    pub fn installation(&self, installation_id: InstallationID) -> (found: Option<&InstalledModSnapshot>)
        ensures
            match self@.root_state {
                ModRootState::Ready { installations, .. } => match found {
                    Some(row) => exists|i: int|
                        first_position(installation_ids(installations.rows@), installation_id, i)
                            && *row == installations.rows@[i],
                    None => !installation_ids(installations.rows@).contains(installation_id),
                },
                _ => found is None,
            },
    {
        match &self.root_state {
            ModRootState::Ready { installations, .. } => {
                let ids = installation_id_list(&installations.rows);
                match position_of(&ids, installation_id) {
                    Some(i) => {
                        assert(first_position(
                            installation_ids(installations.rows@),
                            installation_id,
                            i as int,
                        ));
                        Some(&installations.rows[i])
                    },
                    None => None,
                }
            },
            _ => None,
        }
    }

    /// The first listed backup with identity `backup_id`, if the game
    /// folder is listed.
    pub fn backup(&self, backup_id: BackupID) -> (found: Option<&BackupSnapshot>)
        ensures
            match self@.root_state {
                ModRootState::Ready { backups, .. } => match found {
                    Some(row) => exists|i: int|
                        first_position(backup_ids(backups.rows@), backup_id, i) && *row
                            == backups.rows@[i],
                    None => !backup_ids(backups.rows@).contains(backup_id),
                },
                _ => found is None,
            },
    {
        match &self.root_state {
            ModRootState::Ready { backups, .. } => {
                let ids = backup_id_list(&backups.rows);
                match position_of(&ids, backup_id) {
                    Some(i) => {
                        assert(first_position(backup_ids(backups.rows@), backup_id, i as int));
                        Some(&backups.rows[i])
                    },
                    None => None,
                }
            },
            _ => None,
        }
    }

    /// Selects `package`; nothing else changes.
    pub fn select_package(&mut self, package: Option<ModPackageID>)
        ensures
            final(self)@ == (ModStateView { selected_package: package, ..old(self)@ }),
    {
        self.selected_package = package;
    }

    /// Selects `installation`; nothing else changes.
    pub fn select_installation(&mut self, installation: Option<InstallationID>)
        ensures
            final(self)@ == (ModStateView { selected_installation: installation, ..old(self)@ }),
    {
        self.selected_installation = installation;
    }

    /// Selects `backup`; nothing else changes.
    pub fn select_backup(&mut self, backup: Option<BackupID>)
        ensures
            final(self)@ == (ModStateView { selected_backup: backup, ..old(self)@ }),
    {
        self.selected_backup = backup;
    }

    /// The package being created.
    pub fn create_draft(&self) -> (draft: &ModCreateDraft)
        ensures
            *draft == self@.create_draft,
    {
        &self.create_draft
    }

    /// Sets one text field of the draft to `value`; nothing else changes.
    pub fn set_create_field(&mut self, field: ModCreateField, value: String)
        ensures
            final(self)@ == (ModStateView {
                create_draft: match field {
                    ModCreateField::Name => ModCreateDraft { name: value, ..old(self)@.create_draft },
                    ModCreateField::Version => ModCreateDraft {
                        version: value,
                        ..old(self)@.create_draft
                    },
                    ModCreateField::Author => ModCreateDraft {
                        author: value,
                        ..old(self)@.create_draft
                    },
                    ModCreateField::Description => ModCreateDraft {
                        description: value,
                        ..old(self)@.create_draft
                    },
                    ModCreateField::BackupLabel => ModCreateDraft {
                        backup_label: value,
                        ..old(self)@.create_draft
                    },
                },
                ..old(self)@
            }),
    {
        match field {
            ModCreateField::Name => self.create_draft.name = value,
            ModCreateField::Version => self.create_draft.version = value,
            ModCreateField::Author => self.create_draft.author = value,
            ModCreateField::Description => self.create_draft.description = value,
            ModCreateField::BackupLabel => self.create_draft.backup_label = value,
        }
    }

    /// Sets the files of the draft; nothing else changes.
    pub fn set_create_files(&mut self, files: Vec<String>)
        ensures
            final(self)@ == (ModStateView {
                create_draft: ModCreateDraft { files, ..old(self)@.create_draft },
                ..old(self)@
            }),
    {
        self.create_draft.files = files;
    }

    /// The operation awaiting confirmation.
    pub fn pending_confirmation(&self) -> (pending: Option<&ModPendingConfirmation>)
        ensures
            match pending {
                Some(p) => self@.pending_confirmation == Some(*p),
                None => self@.pending_confirmation is None,
            },
    {
        match &self.pending_confirmation {
            Some(p) => Some(p),
            None => None,
        }
    }

    /// The progress of the running operation.
    pub fn progress(&self) -> (progress: Option<&ModProgressSnapshot>)
        ensures
            match progress {
                Some(p) => self@.progress == Some(*p),
                None => self@.progress is None,
            },
    {
        match &self.progress {
            Some(p) => Some(p),
            None => None,
        }
    }

    /// The kind of the running operation.
    pub fn active_operation(&self) -> (kind: Option<ModOperationKind>)
        ensures
            kind == match self@.active_operation {
                Some(operation) => Some(operation.kind),
                None => None,
            },
    {
        match self.active_operation {
            Some(operation) => Some(operation.kind),
            None => None,
        }
    }

    /// The issues of the last failed operation.
    pub fn operation_issues(&self) -> (issues: &[ModIssueSnapshot])
        ensures
            issues@ == self@.operation_issues,
    {
        self.operation_issues.as_slice()
    }
}


impl ModPresentationState {
    fn next_key(&mut self) -> (key: ModRequestKey)
        ensures
            key == next_key_spec(old(self)@),
            final(self)@ == (ModStateView { next_request_id: key.request.0, ..old(self)@ }),
    {
        self.next_request_id = increment(self.next_request_id);
        ModRequestKey {
            request: RequestID::from_value(self.next_request_id),
            game: self.game,
            root_revision: self.root_revision,
            library_revision: self.library_revision,
        }
    }

    fn key_is_current(&self, key: ModRequestKey) -> (current: bool)
        ensures
            current == key_is_current_spec(self@, key),
    {
        key.request.get() == self.next_request_id && key.game == self.game && key.root_revision
            == self.root_revision && key.library_revision == self.library_revision
    }

    fn reconcile_scan_selections(&mut self)
        ensures
            final(self)@ == reconciled(old(self)@),
    {
        match &self.library_state {
            ModLibraryState::Ready(library) => {
                let ids = package_id_list(&library.rows);
                self.selected_package = reconcile_id(self.selected_package, &ids);
            },
            ModLibraryState::Loading => {},
            _ => {
                self.selected_package = None;
            },
        }
        match &self.root_state {
            ModRootState::Ready { installations, backups, .. } => {
                let installation_list = installation_id_list(&installations.rows);
                let backup_list = backup_id_list(&backups.rows);
                self.selected_installation = reconcile_id(
                    self.selected_installation,
                    &installation_list,
                );
                self.selected_backup = reconcile_id(self.selected_backup, &backup_list);
            },
            ModRootState::Loading => {},
            _ => {
                self.selected_installation = None;
                self.selected_backup = None;
            },
        }
    }

    /// Starts a scan of `scope` and returns its key. The library is loading;
    /// a full scan also reloads the game folder, or marks it missing when no
    /// root is configured. A scan supersedes any prompt or confirmation.
    pub fn begin_scan(&mut self, scope: ModScanScope, root_configured: bool) -> (key: ModRequestKey)
        ensures
            key == next_key_spec(old(self)@),
            final(self)@ == after_begin_scan(old(self)@, scope, root_configured),
    {
        let key = self.next_key();
        self.active_scan = Some((key, scope));
        self.active_prompt = None;
        self.pending_confirmation = None;
        self.library_state = ModLibraryState::Loading;
        if scope == ModScanScope::Full {
            self.root_state = if root_configured {
                ModRootState::Loading
            } else {
                ModRootState::MissingRoot
            };
        }
        key
    }

    /// Applies the result of the scan `key`, if it is the active scan of the
    /// current context, and reconciles the selections with the new lists.
    /// Returns whether the result was applied.
    pub fn finish_scan(&mut self, key: ModRequestKey, completion: ModScanCompletion) -> (applied: bool)
        ensures
            applied == scan_is_current(old(self)@, key),
            final(self)@ == after_finish_scan(
                old(self)@,
                key,
                completion.library_spec(),
                completion.root_spec(),
            ),
    {
        let scope = match self.active_scan {
            Some((active, scope)) => {
                if active != key || !self.key_is_current(key) {
                    return false;
                }
                scope
            },
            None => {
                return false;
            },
        };
        let ModScanCompletion { library, root } = completion;
        self.active_scan = None;
        self.library_state = match library {
            Ok(collection) => ModLibraryState::Ready(collection),
            Err(issue) => ModLibraryState::Failed(issue),
        };
        if scope == ModScanScope::Full {
            self.root_state = match root {
                ModRootCompletion::NotRequested => ModRootState::Idle,
                ModRootCompletion::MissingRoot => ModRootState::MissingRoot,
                ModRootCompletion::Failed(issue) => ModRootState::Failed(issue),
                ModRootCompletion::Ready { configured_root, installations, backups } => {
                    ModRootState::Ready { configured_root, installations, backups }
                },
            };
        }
        self.reconcile_scan_selections();
        true
    }

    /// Moves the pane to `game` and `root_revision`. When either differs,
    /// everything tied to the old context is dropped and its requests go
    /// stale.
    pub fn set_context(&mut self, game: Game, root_revision: u64) -> (change: ModContextChange)
        ensures
            change == (if old(self)@.game == game && old(self)@.root_revision == root_revision {
                ModContextChange::Unchanged
            } else {
                ModContextChange::Changed
            }),
            final(self)@ == (if change == ModContextChange::Unchanged {
                old(self)@
            } else {
                after_context_change(old(self)@, game, root_revision)
            }),
    {
        if self.game == game && self.root_revision == root_revision {
            return ModContextChange::Unchanged;
        }
        self.game = game;
        self.root_revision = root_revision;
        self.active_scan = None;
        self.active_prompt = None;
        self.library_state = ModLibraryState::Idle;
        self.root_state = ModRootState::Idle;
        self.selected_installation = None;
        self.selected_backup = None;
        self.pending_confirmation = None;
        self.progress = None;
        self.active_operation = None;
        self.operation_issues.clear();
        ModContextChange::Changed
    }

    /// Records that the package library changed: its revision moves on, so
    /// every earlier request goes stale, and the library listing is dropped.
    /// Returns the new revision.
    pub fn library_changed(&mut self) -> (revision: u64)
        ensures
            revision == next_number(old(self)@.library_revision),
            final(self)@ == after_library_changed(old(self)@),
    {
        self.library_revision = increment(self.library_revision);
        self.active_scan = None;
        self.active_prompt = None;
        self.library_state = ModLibraryState::Idle;
        self.selected_package = None;
        self.pending_confirmation = None;
        self.progress = None;
        self.active_operation = None;
        self.library_revision
    }

    /// Starts a file prompt of `kind`, unless an operation runs; a newer
    /// prompt supersedes any earlier one.
    pub fn begin_prompt(&mut self, kind: ModPromptKind) -> (key: Option<ModRequestKey>)
        ensures
            key is None <==> old(self)@.active_operation is Some,
            key is None ==> final(self)@ == old(self)@,
            key is Some ==> key == Some(next_key_spec(old(self)@)) && final(self)@
                == after_begin_prompt(old(self)@, kind),
    {
        if self.active_operation.is_some() {
            return None;
        }
        let key = self.next_key();
        self.active_scan = None;
        self.active_prompt = Some((kind, key));
        self.pending_confirmation = None;
        Some(key)
    }

    /// Closes the prompt `kind` of `key` when it is the active prompt of the
    /// current context. Returns whether it was.
    pub fn finish_prompt(&mut self, kind: ModPromptKind, key: ModRequestKey) -> (accepted: bool)
        ensures
            accepted == prompt_is_current(old(self)@, kind, key),
            final(self)@ == (if accepted {
                ModStateView { active_prompt: None, ..old(self)@ }
            } else {
                old(self)@
            }),
    {
        let matches = match self.active_prompt {
            Some((active_kind, active_key)) => active_kind == kind && active_key == key,
            None => false,
        };
        if !matches || !self.key_is_current(key) {
            return false;
        }
        self.active_prompt = None;
        true
    }

    /// Asks to confirm `operation` on `target`, unless an operation runs.
    pub fn begin_confirmation(
        &mut self,
        operation: ModOperationKind,
        target: ModOperationTarget,
        subject: String,
        consequence: String,
    ) -> (key: Option<ModRequestKey>)
        ensures
            key is None <==> old(self)@.active_operation is Some,
            key is None ==> final(self)@ == old(self)@,
            key is Some ==> key == Some(next_key_spec(old(self)@)) && final(self)@
                == after_begin_confirmation(old(self)@, operation, target, subject, consequence),
    {
        if self.active_operation.is_some() {
            return None;
        }
        let key = self.next_key();
        self.active_scan = None;
        self.active_prompt = None;
        self.pending_confirmation = Some(
            ModPendingConfirmation { operation, target, subject, consequence, key },
        );
        Some(key)
    }

    /// Drops the pending confirmation. Returns whether there was one.
    pub fn dismiss_confirmation(&mut self) -> (dismissed: bool)
        ensures
            dismissed == old(self)@.pending_confirmation is Some,
            final(self)@ == (ModStateView { pending_confirmation: None, ..old(self)@ }),
    {
        self.pending_confirmation.take().is_some()
    }

    /// Launches the pending operation when no operation runs and its key is
    /// current; a stale confirmation is dropped.
    pub fn confirm_operation(&mut self) -> (launch: Option<ModOperationLaunch>)
        ensures
            launch == confirmed_launch(old(self)@),
            final(self)@ == after_confirm(old(self)@),
    {
        let pending = match self.pending_confirmation.take() {
            Some(p) => p,
            None => {
                return None;
            },
        };
        if self.active_operation.is_some() || !self.key_is_current(pending.key) {
            return None;
        }
        let launch = ModOperationLaunch {
            kind: pending.operation,
            target: Some(pending.target),
            key: pending.key,
        };
        self.active_operation = Some(ActiveModOperation { kind: launch.kind, key: launch.key });
        self.progress = None;
        self.operation_issues.clear();
        Some(launch)
    }

    /// Starts `kind` without confirmation, unless an operation runs.
    pub fn begin_operation(&mut self, kind: ModOperationKind) -> (key: Option<ModRequestKey>)
        ensures
            key is None <==> old(self)@.active_operation is Some,
            key is None ==> final(self)@ == old(self)@,
            key is Some ==> key == Some(next_key_spec(old(self)@)) && final(self)@
                == after_begin_operation(old(self)@, kind),
    {
        if self.active_operation.is_some() {
            return None;
        }
        let key = self.next_key();
        self.active_scan = None;
        self.active_prompt = None;
        self.pending_confirmation = None;
        self.active_operation = Some(ActiveModOperation { kind, key });
        self.progress = None;
        self.operation_issues.clear();
        Some(key)
    }

    /// Shows a progress report of the running operation `key`, numbered
    /// `sequence` within `phase_epoch`, unless it is stale.
    pub fn update_progress(
        &mut self,
        key: ModRequestKey,
        sequence: u64,
        phase_epoch: u64,
        progress: &ModProgress,
    ) -> (accepted: bool)
        ensures
            accepted == progress_accepted(old(self)@, key, sequence, phase_epoch, *progress),
            final(self)@ == (if accepted {
                after_progress(old(self)@, sequence, phase_epoch, *progress)
            } else {
                old(self)@
            }),
    {
        let operation = match self.active_operation {
            Some(operation) => operation,
            None => {
                return false;
            },
        };
        if operation.key != key || !self.key_is_current(key) {
            return false;
        }
        let (stale, cancel_requested) = match &self.progress {
            Some(current) => (
                sequence <= current.sequence || phase_epoch < current.phase_epoch || (phase_epoch
                    == current.phase_epoch && (current.phase != progress.phase || progress.completed
                    < current.completed)),
                current.cancel_requested,
            ),
            None => (false, false),
        };
        if stale {
            return false;
        }
        let path = match &progress.path {
            Some(path) => Some(path.clone()),
            None => None,
        };
        self.progress = Some(
            ModProgressSnapshot {
                sequence,
                phase_epoch,
                operation: operation.kind,
                phase: progress.phase,
                completed: progress.completed,
                total: progress.total,
                path,
                can_cancel: progress_phase_allows_cancel(progress.phase) && !cancel_requested,
                cancel_requested,
            },
        );
        true
    }

    /// Requests that the running operation cancel, when its progress still
    /// allows it and no request was made. Returns whether it was requested.
    pub fn request_cancellation(&mut self) -> (requested: bool)
        ensures
            requested == cancellation_accepted(old(self)@),
            final(self)@ == (if requested {
                after_cancellation(old(self)@)
            } else {
                old(self)@
            }),
    {
        match self.progress.take() {
            Some(mut current) => {
                if !current.can_cancel || current.cancel_requested {
                    self.progress = Some(current);
                    false
                } else {
                    current.cancel_requested = true;
                    current.can_cancel = false;
                    self.progress = Some(current);
                    true
                }
            },
            None => false,
        }
    }

    /// Ends the running operation `key` when it is current, releasing the
    /// pane for the next one. Returns whether it was.
    pub fn finish_operation(&mut self, key: ModRequestKey) -> (finished: bool)
        ensures
            finished == operation_is_current(old(self)@, key),
            final(self)@ == (if finished {
                after_finish_operation(old(self)@)
            } else {
                old(self)@
            }),
    {
        let is_active = match self.active_operation {
            Some(operation) => operation.key == key,
            None => false,
        };
        if !is_active || !self.key_is_current(key) {
            return false;
        }
        self.active_operation = None;
        self.progress = None;
        true
    }

    /// Ends the running operation `key` as [`Self::finish_operation`] does
    /// and records `issue` when it did.
    pub fn fail_operation(&mut self, key: ModRequestKey, issue: ModIssueSnapshot) -> (finished: bool)
        ensures
            finished == operation_is_current(old(self)@, key),
            final(self)@ == (if finished {
                ModStateView {
                    operation_issues: old(self)@.operation_issues.push(issue),
                    ..after_finish_operation(old(self)@)
                }
            } else {
                old(self)@
            }),
    {
        if !self.finish_operation(key) {
            return false;
        }
        self.operation_issues.push(issue);
        true
    }
}


/// Moving the pane to another game or game-folder revision makes every
/// request made in the old context stale: its scan result, prompt and
/// operation are all refused, and a refused scan result changes nothing.
pub proof fn law_context_change_rejects_earlier_requests(
    s: ModStateView,
    game: Game,
    root_revision: u64,
    key: ModRequestKey,
    kind: ModPromptKind,
    library: Result<ModCollectionSnapshot<ModPackageSnapshot>, ModIssueSnapshot>,
    root: ModRootCompletion,
)
    requires
        key.game == s.game,
        key.root_revision == s.root_revision,
        game != s.game || root_revision != s.root_revision,
    ensures
        ({
            let t = after_context_change(s, game, root_revision);
            &&& !key_is_current_spec(t, key)
            &&& !scan_is_current(t, key)
            &&& !prompt_is_current(t, kind, key)
            &&& !operation_is_current(t, key)
            &&& after_finish_scan(t, key, library, root) == t
        }),
{
}

/// A change of the package library makes every request made before it
/// stale.
pub proof fn law_library_change_rejects_earlier_requests(s: ModStateView, key: ModRequestKey)
    requires
        key.library_revision == s.library_revision,
    ensures
        !key_is_current_spec(after_library_changed(s), key),
{
}

/// Each new request supersedes the one before it: a key that was current
/// is no longer current once a scan, prompt, confirmation or operation
/// starts, while the new request's key is.
pub proof fn law_newer_request_supersedes(
    s: ModStateView,
    key: ModRequestKey,
    scope: ModScanScope,
    root_configured: bool,
    prompt: ModPromptKind,
    operation: ModOperationKind,
    target: ModOperationTarget,
    subject: String,
    consequence: String,
)
    requires
        key_is_current_spec(s, key),
    ensures
        !key_is_current_spec(after_begin_scan(s, scope, root_configured), key),
        !key_is_current_spec(after_begin_prompt(s, prompt), key),
        !key_is_current_spec(
            after_begin_confirmation(s, operation, target, subject, consequence),
            key,
        ),
        !key_is_current_spec(after_begin_operation(s, operation), key),
        key_is_current_spec(after_begin_scan(s, scope, root_configured), next_key_spec(s)),
        key_is_current_spec(after_begin_prompt(s, prompt), next_key_spec(s)),
        key_is_current_spec(after_begin_operation(s, operation), next_key_spec(s)),
{
}

/// While an operation runs no confirmation launches another; a started
/// operation is the current one until it finishes, and finishing it frees
/// the pane.
pub proof fn law_one_operation_at_a_time(s: ModStateView, kind: ModOperationKind)
    ensures
        s.active_operation is Some ==> confirmed_launch(s) is None,
        operation_is_current(after_begin_operation(s, kind), next_key_spec(s)),
        (after_begin_operation(s, kind)).active_operation is Some,
        (after_finish_operation(after_begin_operation(s, kind))).active_operation is None,
{
}

/// Accepted progress only moves forward: its number grows, its phase epoch
/// never goes back, and within one epoch the phase stays and the completed
/// work does not shrink.
pub proof fn law_progress_moves_forward(
    s: ModStateView,
    key: ModRequestKey,
    sequence: u64,
    phase_epoch: u64,
    progress: ModProgress,
)
    requires
        progress_accepted(s, key, sequence, phase_epoch, progress),
        s.progress is Some,
    ensures
        ({
            let c = s.progress.unwrap();
            &&& sequence > c.sequence
            &&& phase_epoch >= c.phase_epoch
            &&& phase_epoch == c.phase_epoch ==> progress.phase == c.phase && progress.completed
                >= c.completed
        }),
{
}

/// A cancellation is requested at most once, and once requested it stays
/// requested and cancel stays unavailable through every later report.
pub proof fn law_cancellation_sticks(
    s: ModStateView,
    sequence: u64,
    phase_epoch: u64,
    progress: ModProgress,
)
    requires
        cancellation_accepted(s),
    ensures
        !cancellation_accepted(after_cancellation(s)),
        reported_progress(after_cancellation(s), sequence, phase_epoch, progress).cancel_requested,
        !reported_progress(after_cancellation(s), sequence, phase_epoch, progress).can_cancel,
{
}

/// A refreshed list keeps a selection that is still listed, else selects
/// its first row, and selects nothing only when it is empty; what it
/// selects is always listed.
pub proof fn law_reconciled_selection_is_listed<T>(selected: Option<T>, values: Seq<T>)
    ensures
        (selected matches Some(v) && values.contains(v)) ==> reconcile_spec(selected, values)
            == selected,
        reconcile_spec(selected, values) is None <==> values.len() == 0,
        reconcile_spec(selected, values) matches Some(v) ==> values.contains(v),
        !(selected matches Some(v) && values.contains(v)) && values.len() > 0 ==> reconcile_spec(
            selected,
            values,
        ) == Some(values[0]),
{
    if values.len() > 0 {
        assert(values.contains(values[0]));
    }
}

/// An operation can be canceled while it copies, creates, inspects or
/// stages, and never while it publishes a package, an installation, an
/// uninstall or a backup, or while it rolls back: a report in such a phase
/// leaves cancel unavailable, and a cancellation request is then refused.
pub proof fn law_publishing_and_rollback_cannot_be_canceled(
    s: ModStateView,
    sequence: u64,
    phase_epoch: u64,
    progress: ModProgress,
)
    ensures
        phase_allows_cancel(ModProgressPhase::CopyingPackage),
        phase_allows_cancel(ModProgressPhase::CreatingPackage),
        phase_allows_cancel(ModProgressPhase::InspectingPackage),
        phase_allows_cancel(ModProgressPhase::StagingFiles),
        phase_allows_cancel(ModProgressPhase::StagingUninstall),
        !phase_allows_cancel(ModProgressPhase::PublishingPackage),
        !phase_allows_cancel(ModProgressPhase::PublishingInstallation),
        !phase_allows_cancel(ModProgressPhase::PublishingUninstall),
        !phase_allows_cancel(ModProgressPhase::PublishingBackup),
        !phase_allows_cancel(ModProgressPhase::RollingBack),
        (progress.phase == ModProgressPhase::PublishingPackage || progress.phase
            == ModProgressPhase::PublishingInstallation || progress.phase
            == ModProgressPhase::PublishingUninstall || progress.phase
            == ModProgressPhase::PublishingBackup || progress.phase
            == ModProgressPhase::RollingBack) ==> {
            &&& !reported_progress(s, sequence, phase_epoch, progress).can_cancel
            &&& !cancellation_accepted(
                after_progress(s, sequence, phase_epoch, progress),
            )
        },
{
}

/// Scans never move the pane to another section.
pub proof fn law_scans_keep_the_section(
    s: ModStateView,
    scope: ModScanScope,
    root_configured: bool,
    key: ModRequestKey,
    library: Result<ModCollectionSnapshot<ModPackageSnapshot>, ModIssueSnapshot>,
    root: ModRootCompletion,
)
    ensures
        after_begin_scan(s, scope, root_configured).section == s.section,
        after_finish_scan(s, key, library, root).section == s.section,
{
}

} // verus!
