//! The Patches pane: which executable inspection is current, which patch
//! operation awaits confirmation, and which one is running.

use vstd::prelude::*;

use crate::game::Game;
use crate::path_text::{optional_text, paths_equal, root_matches, roots_match, same_path};

verus! {

/// A patch of the Crusaders executable.
#[derive(Clone, Copy, Debug, PartialEq, Eq, Hash, Structural)]
pub enum PatchID {
    DebugMenu,
    TerrainBounds,
}

/// Whether a patch is applied to an executable.
#[derive(Clone, Copy, Debug, PartialEq, Eq, Structural)]
pub enum PatchStatus {
    NotApplied,
    Applied,
    Unknown,
}

/// The state a patch operation moves a patch to.
#[derive(Clone, Copy, Debug, PartialEq, Eq, Structural)]
pub enum PatchTarget {
    Applied,
    NotApplied,
}

/// A fire-rate preset.
#[derive(Clone, Copy, Debug, PartialEq, Eq, Structural)]
pub enum FireRatePresetID {
    Original,
    Fast,
    Rapid,
    Turbo,
}

/// The fire rate an executable carries: a known preset, custom values, or
/// values that could not be read.
#[derive(Clone, Copy, Debug, PartialEq, Eq, Structural)]
pub enum FireRateStatus {
    Unknown,
    Preset(FireRatePresetID),
    Custom,
}

/// Whether the executable's backup exists.
#[derive(Clone, Copy, Debug, PartialEq, Eq, Structural)]
pub enum BackupStatus {
    Present,
    Missing,
}

/// Whether a context update changed the pane's context.
#[derive(Clone, Copy, Debug, PartialEq, Eq, Structural)]
pub enum PatchContextChange {
    Changed,
    Unchanged,
}

/// The number of a request made by the pane.
#[derive(Clone, Copy, Debug, PartialEq, Eq, Hash, Structural)]
pub struct PatchRequestID(u64);

impl PatchRequestID {
    pub closed spec fn value(self) -> u64 {
        self.0
    }

    /// The request number.
    pub fn get(self) -> (number: u64)
        ensures
            number == self.value(),
    {
        self.0
    }
}

/// The game, root folder and root revision that a result belongs to.
#[derive(Debug)]
struct PatchContext {
    game: Game,
    root: Option<String>,
    root_revision: u64,
}

/// The abstract [`PatchContext`].
pub struct ContextView {
    pub game: Game,
    pub root: Option<Seq<char>>,
    pub root_revision: u64,
}

impl View for PatchContext {
    type V = ContextView;

    closed spec fn view(&self) -> ContextView {
        ContextView { game: self.game, root: optional_text(self.root), root_revision: self.root_revision }
    }
}

fn clone_text(text: &Option<String>) -> (copy: Option<String>)
    ensures
        copy == *text,
{
    match text {
        Some(s) => Some(s.clone()),
        None => None,
    }
}

/// Whether two contexts are the same: the same game and revision, and the
/// same root path.
pub open spec fn contexts_match(a: ContextView, b: ContextView) -> bool {
    a.game == b.game && a.root_revision == b.root_revision && root_matches(a.root, b.root)
}

impl PatchContext {
    fn duplicate(&self) -> (copy: Self)
        ensures
            copy@ == self@,
    {
        PatchContext { game: self.game, root: clone_text(&self.root), root_revision: self.root_revision }
    }

    fn same(&self, other: &PatchContext) -> (same: bool)
        ensures
            same == contexts_match(self@, other@),
    {
        self.game == other.game && self.root_revision == other.root_revision && roots_match(
            &self.root,
            &other.root,
        )
    }
}

/// The key of an inspection: its request and the context it inspects.
#[derive(Debug)]
pub struct PatchKey {
    request: PatchRequestID,
    context: PatchContext,
}

/// The abstract [`PatchKey`].
pub struct KeyView {
    pub request: u64,
    pub context: ContextView,
}

/// Whether two inspection keys are the same: the same request of the same
/// context.
pub open spec fn inspection_keys_match(a: KeyView, b: KeyView) -> bool {
    a.request == b.request && contexts_match(a.context, b.context)
}

impl View for PatchKey {
    type V = KeyView;

    closed spec fn view(&self) -> KeyView {
        KeyView { request: self.request.0, context: self.context@ }
    }
}

impl PatchKey {
    /// The inspection request.
    pub fn request(&self) -> (request: PatchRequestID)
        ensures
            request.value() == self@.request,
    {
        self.request
    }

    /// The game inspected.
    pub fn game(&self) -> (game: Game)
        ensures
            game == self@.context.game,
    {
        self.context.game
    }

    /// The root folder inspected.
    pub fn root(&self) -> (root: Option<&str>)
        ensures
            match root {
                Some(r) => self@.context.root == Some(r@),
                None => self@.context.root is None,
            },
    {
        match &self.context.root {
            Some(root) => Some(root.as_str()),
            None => None,
        }
    }

    /// The root revision inspected.
    pub fn root_revision(&self) -> (revision: u64)
        ensures
            revision == self@.context.root_revision,
    {
        self.context.root_revision
    }

    /// A copy of the key.
    pub fn duplicate(&self) -> (copy: Self)
        ensures
            copy@ == self@,
    {
        PatchKey { request: self.request, context: self.context.duplicate() }
    }

    fn same(&self, other: &PatchKey) -> (same: bool)
        ensures
            same == inspection_keys_match(self@, other@),
    {
        self.request == other.request && self.context.same(&other.context)
    }
}

/// The state of one patch in an inspected executable.
#[derive(Clone, Copy, Debug, PartialEq, Eq, Structural)]
pub struct ExecutablePatchState {
    id: PatchID,
    status: PatchStatus,
}

impl ExecutablePatchState {
    pub closed spec fn id_spec(self) -> PatchID {
        self.id
    }

    pub closed spec fn status_spec(self) -> PatchStatus {
        self.status
    }

    /// The state `status` of patch `id`.
    pub fn new(id: PatchID, status: PatchStatus) -> (state: Self)
        ensures
            state.id_spec() == id,
            state.status_spec() == status,
    {
        ExecutablePatchState { id, status }
    }

    /// The patch.
    pub fn id(self) -> (id: PatchID)
        ensures
            id == self.id_spec(),
    {
        self.id
    }

    /// Its status.
    pub fn status(self) -> (status: PatchStatus)
        ensures
            status == self.status_spec(),
    {
        self.status
    }
}

/// What an inspection found in the executable.
#[derive(Debug)]
pub struct PatchSnapshot {
    executable: String,
    backup: String,
    backup_status: BackupStatus,
    patches: [ExecutablePatchState; 2],
    fire_rate: FireRateStatus,
}

/// The abstract [`PatchSnapshot`].
pub struct SnapshotView {
    pub executable: Seq<char>,
    pub backup: Seq<char>,
    pub backup_status: BackupStatus,
    pub patches: Seq<ExecutablePatchState>,
    pub fire_rate: FireRateStatus,
}

impl View for PatchSnapshot {
    type V = SnapshotView;

    closed spec fn view(&self) -> SnapshotView {
        SnapshotView {
            executable: self.executable@,
            backup: self.backup@,
            backup_status: self.backup_status,
            patches: self.patches@,
            fire_rate: self.fire_rate,
        }
    }
}

/// The status that a snapshot records for patch `id`: that of the first
/// state naming it, or unknown.
pub open spec fn recorded_status(patches: Seq<ExecutablePatchState>, id: PatchID) -> PatchStatus
    decreases patches.len(),
{
    if patches.len() == 0 {
        PatchStatus::Unknown
    } else if patches[0].id_spec() == id {
        patches[0].status_spec()
    } else {
        recorded_status(patches.drop_first(), id)
    }
}

impl PatchSnapshot {
    /// A snapshot of the given findings.
    pub fn new(
        executable: String,
        backup: String,
        backup_status: BackupStatus,
        patches: [ExecutablePatchState; 2],
        fire_rate: FireRateStatus,
    ) -> (snapshot: Self)
        ensures
            snapshot@ == (SnapshotView {
                executable: executable@,
                backup: backup@,
                backup_status,
                patches: patches@,
                fire_rate,
            }),
    {
        PatchSnapshot { executable, backup, backup_status, patches, fire_rate }
    }

    /// The inspected executable.
    pub fn executable(&self) -> (executable: &str)
        ensures
            executable@ == self@.executable,
    {
        self.executable.as_str()
    }

    /// The executable's backup file.
    pub fn backup(&self) -> (backup: &str)
        ensures
            backup@ == self@.backup,
    {
        self.backup.as_str()
    }

    /// Whether the backup exists.
    pub fn backup_status(&self) -> (status: BackupStatus)
        ensures
            status == self@.backup_status,
    {
        self.backup_status
    }

    /// The recorded status of patch `id`.
    pub fn patch_status(&self, id: PatchID) -> (status: PatchStatus)
        ensures
            status == recorded_status(self@.patches, id),
    {
        let mut i: usize = 0;
        assert(self@.patches.skip(0) =~= self@.patches);
        while i < 2
            invariant
                i <= 2,
                self.patches@.len() == 2,
                recorded_status(self@.patches, id) == recorded_status(
                    self@.patches.skip(i as int),
                    id,
                ),
            decreases 2 - i,
        {
            let state = self.patches[i];
            proof {
                let rest = self@.patches.skip(i as int);
                assert(rest[0] == state);
                assert(rest.drop_first() =~= self@.patches.skip(i + 1));
            }
            if state.id() == id {
                return state.status();
            }
            i = i + 1;
        }
        assert(self@.patches.skip(2).len() == 0);
        PatchStatus::Unknown
    }

    /// The fire rate.
    pub fn fire_rate(&self) -> (fire_rate: FireRateStatus)
        ensures
            fire_rate == self@.fire_rate,
    {
        self.fire_rate
    }

    fn duplicate(&self) -> (copy: Self)
        ensures
            copy@ == self@,
    {
        PatchSnapshot {
            executable: self.executable.clone(),
            backup: self.backup.clone(),
            backup_status: self.backup_status,
            patches: self.patches,
            fire_rate: self.fire_rate,
        }
    }
}

/// The inspection state of the pane.
#[derive(Debug)]
pub enum PatchInspectionPhase {
    Idle,
    Loading { key: PatchKey },
    Ready { key: PatchKey, snapshot: PatchSnapshot },
    Failed { key: PatchKey, message: String },
}

/// The abstract [`PatchInspectionPhase`].
pub enum PhaseView {
    Idle,
    Loading { key: KeyView },
    Ready { key: KeyView, snapshot: SnapshotView },
    Failed { key: KeyView, message: Seq<char> },
}

impl View for PatchInspectionPhase {
    type V = PhaseView;

    closed spec fn view(&self) -> PhaseView {
        match self {
            PatchInspectionPhase::Idle => PhaseView::Idle,
            PatchInspectionPhase::Loading { key } => PhaseView::Loading { key: key@ },
            PatchInspectionPhase::Ready { key, snapshot } => PhaseView::Ready {
                key: key@,
                snapshot: snapshot@,
            },
            PatchInspectionPhase::Failed { key, message } => PhaseView::Failed {
                key: key@,
                message: message@,
            },
        }
    }
}

/// An operation on the executable.
#[allow(inconsistent_fields)]
#[derive(Clone, Copy, Debug, PartialEq, Eq, Structural)]
pub enum PatchOperation {
    SetPatch { id: PatchID, target: PatchTarget },
    SetFireRate { id: FireRatePresetID },
}

/// An operation awaiting confirmation, with the files it will touch.
#[derive(Debug)]
pub struct PatchPendingConfirmation {
    key: PatchKey,
    operation: PatchOperation,
    executable: String,
    backup: String,
}

/// The abstract [`PatchPendingConfirmation`].
pub struct PendingView {
    pub key: KeyView,
    pub operation: PatchOperation,
    pub executable: Seq<char>,
    pub backup: Seq<char>,
}

impl View for PatchPendingConfirmation {
    type V = PendingView;

    closed spec fn view(&self) -> PendingView {
        PendingView {
            key: self.key@,
            operation: self.operation,
            executable: self.executable@,
            backup: self.backup@,
        }
    }
}

impl PatchPendingConfirmation {
    /// The operation to confirm.
    pub fn operation(&self) -> (operation: PatchOperation)
        ensures
            operation == self@.operation,
    {
        self.operation
    }

    /// The executable it changes.
    pub fn executable(&self) -> (executable: &str)
        ensures
            executable@ == self@.executable,
    {
        self.executable.as_str()
    }

    /// The backup it writes.
    pub fn backup(&self) -> (backup: &str)
        ensures
            backup@ == self@.backup,
    {
        self.backup.as_str()
    }
}

/// The key of a running operation.
#[derive(Debug)]
pub struct PatchOperationKey {
    request: PatchRequestID,
    context: PatchContext,
    operation: PatchOperation,
    executable: String,
    backup: String,
}

/// The abstract [`PatchOperationKey`].
pub struct OperationKeyView {
    pub request: u64,
    pub context: ContextView,
    pub operation: PatchOperation,
    pub executable: Seq<char>,
    pub backup: Seq<char>,
}

/// Whether two operation keys are the same: the same request, context and
/// operation, on the same executable and backup paths.
pub open spec fn operation_keys_match(a: OperationKeyView, b: OperationKeyView) -> bool {
    &&& a.request == b.request
    &&& contexts_match(a.context, b.context)
    &&& a.operation == b.operation
    &&& same_path(a.executable, b.executable)
    &&& same_path(a.backup, b.backup)
}

impl View for PatchOperationKey {
    type V = OperationKeyView;

    closed spec fn view(&self) -> OperationKeyView {
        OperationKeyView {
            request: self.request.0,
            context: self.context@,
            operation: self.operation,
            executable: self.executable@,
            backup: self.backup@,
        }
    }
}

impl PatchOperationKey {
    /// The operation request.
    pub fn request(&self) -> (request: PatchRequestID)
        ensures
            request.value() == self@.request,
    {
        self.request
    }

    /// The operation.
    pub fn operation(&self) -> (operation: PatchOperation)
        ensures
            operation == self@.operation,
    {
        self.operation
    }

    /// The root folder it runs against.
    pub fn root(&self) -> (root: Option<&str>)
        ensures
            match root {
                Some(r) => self@.context.root == Some(r@),
                None => self@.context.root is None,
            },
    {
        match &self.context.root {
            Some(root) => Some(root.as_str()),
            None => None,
        }
    }

    /// The executable it changes.
    pub fn executable(&self) -> (executable: &str)
        ensures
            executable@ == self@.executable,
    {
        self.executable.as_str()
    }

    /// A copy of the key.
    pub fn duplicate(&self) -> (copy: Self)
        ensures
            copy@ == self@,
    {
        PatchOperationKey {
            request: self.request,
            context: self.context.duplicate(),
            operation: self.operation,
            executable: self.executable.clone(),
            backup: self.backup.clone(),
        }
    }

    fn same(&self, other: &PatchOperationKey) -> (same: bool)
        ensures
            same == operation_keys_match(self@, other@),
    {
        self.request == other.request && self.context.same(&other.context) && self.operation
            == other.operation && paths_equal(self.executable.as_str(), other.executable.as_str())
            && paths_equal(self.backup.as_str(), other.backup.as_str())
    }
}

/// A confirmed operation to launch.
#[derive(Debug)]
pub struct PatchOperationLaunch {
    key: PatchOperationKey,
}

impl PatchOperationLaunch {
    pub closed spec fn key_spec(&self) -> OperationKeyView {
        self.key@
    }

    /// The key that identifies the running operation.
    pub fn key(&self) -> (key: &PatchOperationKey)
        ensures
            key@ == self.key_spec(),
    {
        &self.key
    }

    /// The operation to run.
    pub fn operation(&self) -> (operation: PatchOperation)
        ensures
            operation == self.key_spec().operation,
    {
        self.key.operation()
    }

    /// The root folder to run it against.
    pub fn root(&self) -> (root: Option<&str>)
        ensures
            match root {
                Some(r) => self.key_spec().context.root == Some(r@),
                None => self.key_spec().context.root is None,
            },
    {
        self.key.root()
    }
}

/// How a finished operation relates to the pane.
#[derive(Clone, Copy, Debug, PartialEq, Eq, Structural)]
pub enum PatchFinish {
    /// It ran in the current context.
    Current,
    /// The context changed while it ran.
    ContextChanged,
    /// It is not the running operation.
    Ignored,
}

/// The presentation state of the Patches pane.
#[derive(Debug)]
pub struct PatchPresentationState {
    context: PatchContext,
    next_request: u64,
    phase: PatchInspectionPhase,
    pending_confirmation: Option<PatchPendingConfirmation>,
    active_operation: Option<PatchOperationKey>,
}

/// The abstract [`PatchPresentationState`].
pub struct PatchStateView {
    pub context: ContextView,
    pub next_request: u64,
    pub phase: PhaseView,
    pub pending: Option<PendingView>,
    pub active: Option<OperationKeyView>,
}

impl View for PatchPresentationState {
    type V = PatchStateView;

    closed spec fn view(&self) -> PatchStateView {
        PatchStateView {
            context: self.context@,
            next_request: self.next_request,
            phase: self.phase@,
            pending: match self.pending_confirmation {
                Some(p) => Some(p@),
                None => None,
            },
            active: match self.active_operation {
                Some(k) => Some(k@),
                None => None,
            },
        }
    }
}

/// Whether `operation` changes anything in the inspected executable: a
/// patch moves between known applied and not-applied states, and a preset
/// replaces a known, different fire rate.
pub open spec fn operation_available_spec(snapshot: SnapshotView, operation: PatchOperation) -> bool {
    match operation {
        PatchOperation::SetPatch { id, target } => {
            let status = recorded_status(snapshot.patches, id);
            (status == PatchStatus::NotApplied && target == PatchTarget::Applied) || (status
                == PatchStatus::Applied && target == PatchTarget::NotApplied)
        },
        PatchOperation::SetFireRate { id } => snapshot.fire_rate != FireRateStatus::Unknown
            && snapshot.fire_rate != FireRateStatus::Preset(id),
    }
}

/// The pane after [`PatchPresentationState::set_context`].
pub open spec fn after_set_context(s: PatchStateView, context: ContextView) -> (
    PatchStateView,
    PatchContextChange,
) {
    if contexts_match(context, s.context) {
        (s, PatchContextChange::Unchanged)
    } else {
        (
            PatchStateView { context, phase: PhaseView::Idle, pending: None, ..s },
            PatchContextChange::Changed,
        )
    }
}

/// Whether an inspection may start: no operation runs and a Crusaders root
/// is configured.
pub open spec fn can_inspect(s: PatchStateView) -> bool {
    s.active is None && s.context.game == Game::Crusaders && s.context.root is Some
}

/// The pane after [`PatchPresentationState::begin_inspection`], and the key
/// of the inspection it started.
pub open spec fn after_begin_inspection(s: PatchStateView) -> (PatchStateView, Option<KeyView>) {
    if !can_inspect(s) {
        (PatchStateView { phase: PhaseView::Idle, pending: None, ..s }, None)
    } else {
        let key = KeyView { request: (s.next_request + 1) as u64, context: s.context };
        (
            PatchStateView {
                next_request: (s.next_request + 1) as u64,
                phase: PhaseView::Loading { key },
                pending: None,
                ..s
            },
            Some(key),
        )
    }
}

/// Whether the inspection `key` is the one the pane awaits.
pub open spec fn inspection_is_current(s: PatchStateView, key: KeyView) -> bool {
    &&& contexts_match(key.context, s.context)
    &&& s.phase matches PhaseView::Loading { key: active } && inspection_keys_match(active, key)
}

/// The pane after [`PatchPresentationState::finish_inspection`].
pub open spec fn after_finish_inspection(
    s: PatchStateView,
    key: KeyView,
    result: Result<SnapshotView, Seq<char>>,
) -> PatchStateView {
    if !inspection_is_current(s, key) {
        s
    } else {
        PatchStateView {
            phase: match result {
                Ok(snapshot) => PhaseView::Ready { key, snapshot },
                Err(message) => PhaseView::Failed { key, message },
            },
            ..s
        }
    }
}

/// Whether [`PatchPresentationState::request_operation`] opens a
/// confirmation for `operation`.
pub open spec fn operation_requestable(s: PatchStateView, operation: PatchOperation) -> bool {
    &&& s.active is None
    &&& s.phase matches PhaseView::Ready { snapshot, .. } && operation_available_spec(
        snapshot,
        operation,
    )
}

/// The pane after [`PatchPresentationState::request_operation`].
pub open spec fn after_request_operation(s: PatchStateView, operation: PatchOperation) -> PatchStateView {
    if !operation_requestable(s, operation) {
        s
    } else {
        match s.phase {
            PhaseView::Ready { key, snapshot } => PatchStateView {
                pending: Some(
                    PendingView {
                        key,
                        operation,
                        executable: snapshot.executable,
                        backup: snapshot.backup,
                    },
                ),
                ..s
            },
            _ => s,
        }
    }
}

/// Whether the pending confirmation still matches the ready inspection of
/// the current context.
pub open spec fn confirmation_is_current(s: PatchStateView) -> bool {
    &&& s.active is None
    &&& s.pending is Some
    &&& contexts_match(s.pending.unwrap().key.context, s.context)
    &&& s.phase matches PhaseView::Ready { key, .. } && inspection_keys_match(
        key,
        s.pending.unwrap().key,
    )
}

/// The pane after [`PatchPresentationState::confirm_operation`], and the
/// key of the operation it launched.
pub open spec fn after_confirm(s: PatchStateView) -> (PatchStateView, Option<OperationKeyView>) {
    if !confirmation_is_current(s) {
        (PatchStateView { pending: None, ..s }, None)
    } else {
        let p = s.pending.unwrap();
        let key = OperationKeyView {
            request: (s.next_request + 1) as u64,
            context: s.context,
            operation: p.operation,
            executable: p.executable,
            backup: p.backup,
        };
        (
            PatchStateView {
                next_request: (s.next_request + 1) as u64,
                pending: None,
                active: Some(key),
                ..s
            },
            Some(key),
        )
    }
}

/// The pane after [`PatchPresentationState::finish_operation`], and how
/// the operation relates to it.
pub open spec fn after_finish_operation(s: PatchStateView, key: OperationKeyView) -> (
    PatchStateView,
    PatchFinish,
) {
    if !(s.active matches Some(active) && operation_keys_match(active, key)) {
        (s, PatchFinish::Ignored)
    } else {
        (
            PatchStateView { active: None, ..s },
            if contexts_match(key.context, s.context) {
                PatchFinish::Current
            } else {
                PatchFinish::ContextChanged
            },
        )
    }
}

/// Every request number in use was handed out before.
pub open spec fn patch_state_well_formed(s: PatchStateView) -> bool {
    &&& s.phase matches PhaseView::Loading { key } ==> key.request <= s.next_request
    &&& s.phase matches PhaseView::Ready { key, .. } ==> key.request <= s.next_request
    &&& s.phase matches PhaseView::Failed { key, .. } ==> key.request <= s.next_request
    &&& s.active matches Some(k) ==> k.request <= s.next_request
}

fn operation_available(snapshot: &PatchSnapshot, operation: PatchOperation) -> (available: bool)
    ensures
        available == operation_available_spec(snapshot@, operation),
{
    match operation {
        PatchOperation::SetPatch { id, target } => {
            let status = snapshot.patch_status(id);
            (status == PatchStatus::NotApplied && target == PatchTarget::Applied) || (status
                == PatchStatus::Applied && target == PatchTarget::NotApplied)
        },
        PatchOperation::SetFireRate { id } => {
            let fire_rate = snapshot.fire_rate();
            fire_rate != FireRateStatus::Unknown && fire_rate != FireRateStatus::Preset(id)
        },
    }
}

impl PatchPresentationState {
    /// An idle pane for the given context.
    pub fn new(game: Game, root: Option<String>, root_revision: u64) -> (state: Self)
        ensures
            patch_state_well_formed(state@),
            state@ == (PatchStateView {
                context: ContextView { game, root: optional_text(root), root_revision },
                next_request: 0,
                phase: PhaseView::Idle,
                pending: None,
                active: None,
            }),
    {
        PatchPresentationState {
            context: PatchContext { game, root, root_revision },
            next_request: 0,
            phase: PatchInspectionPhase::Idle,
            pending_confirmation: None,
            active_operation: None,
        }
    }

    /// The pane's game.
    pub fn game(&self) -> (game: Game)
        ensures
            game == self@.context.game,
    {
        self.context.game
    }

    /// The pane's root folder.
    pub fn root(&self) -> (root: Option<&str>)
        ensures
            match root {
                Some(r) => self@.context.root == Some(r@),
                None => self@.context.root is None,
            },
    {
        match &self.context.root {
            Some(root) => Some(root.as_str()),
            None => None,
        }
    }

    /// The pane's root revision.
    pub fn root_revision(&self) -> (revision: u64)
        ensures
            revision == self@.context.root_revision,
    {
        self.context.root_revision
    }

    /// The inspection state.
    pub fn phase(&self) -> (phase: &PatchInspectionPhase)
        ensures
            phase@ == self@.phase,
    {
        &self.phase
    }

    /// The operation awaiting confirmation.
    pub fn pending_confirmation(&self) -> (pending: Option<&PatchPendingConfirmation>)
        ensures
            match pending {
                Some(p) => self@.pending == Some(p@),
                None => self@.pending is None,
            },
    {
        self.pending_confirmation.as_ref()
    }

    /// Whether an operation runs.
    pub fn operation_in_progress(&self) -> (in_progress: bool)
        ensures
            in_progress == self@.active is Some,
    {
        self.active_operation.is_some()
    }

    /// The backup file of the running operation.
    pub fn active_backup(&self) -> (backup: Option<&str>)
        ensures
            match backup {
                Some(b) => self@.active is Some && self@.active.unwrap().backup == b@,
                None => self@.active is None,
            },
    {
        match &self.active_operation {
            Some(operation) => Some(operation.backup.as_str()),
            None => None,
        }
    }

    /// Moves the pane to a new context; a change drops the inspection and
    /// any pending confirmation, but not a running operation.
    pub fn set_context(&mut self, game: Game, root: Option<String>, root_revision: u64) -> (change:
        PatchContextChange)
        requires
            patch_state_well_formed(old(self)@),
        ensures
            patch_state_well_formed(final(self)@),
            (final(self)@, change) == after_set_context(
                old(self)@,
                ContextView { game, root: optional_text(root), root_revision },
            ),
    {
        let context = PatchContext { game, root, root_revision };
        if context.same(&self.context) {
            return PatchContextChange::Unchanged;
        }
        self.context = context;
        self.phase = PatchInspectionPhase::Idle;
        self.pending_confirmation = None;
        PatchContextChange::Changed
    }

    fn next_request(&mut self) -> (request: PatchRequestID)
        requires
            old(self).next_request < u64::MAX,
        ensures
            request.value() == old(self).next_request + 1,
            final(self).next_request == old(self).next_request + 1,
            final(self).context == old(self).context,
            final(self).phase == old(self).phase,
            final(self).pending_confirmation == old(self).pending_confirmation,
            final(self).active_operation == old(self).active_operation,
    {
        self.next_request = self.next_request + 1;
        PatchRequestID(self.next_request)
    }

    /// Starts inspecting the executable of the current context, when no
    /// operation runs and a Crusaders root is configured.
    pub fn begin_inspection(&mut self) -> (key: Option<PatchKey>)
        requires
            patch_state_well_formed(old(self)@),
            old(self)@.next_request < u64::MAX,
        ensures
            patch_state_well_formed(final(self)@),
            final(self)@ == after_begin_inspection(old(self)@).0,
            match key {
                Some(k) => after_begin_inspection(old(self)@).1 == Some(k@),
                None => after_begin_inspection(old(self)@).1 is None,
            },
    {
        if self.active_operation.is_some() || self.context.game != Game::Crusaders
            || self.context.root.is_none() {
            self.phase = PatchInspectionPhase::Idle;
            self.pending_confirmation = None;
            return None;
        }
        let request = self.next_request();
        let key = PatchKey { request, context: self.context.duplicate() };
        self.phase = PatchInspectionPhase::Loading { key: key.duplicate() };
        self.pending_confirmation = None;
        Some(key)
    }

    /// Records the result of inspection `key` when it is the one awaited;
    /// whether it was.
    pub fn finish_inspection(&mut self, key: PatchKey, result: Result<PatchSnapshot, String>) -> (current: bool)
        requires
            patch_state_well_formed(old(self)@),
        ensures
            patch_state_well_formed(final(self)@),
            current == inspection_is_current(old(self)@, key@),
            final(self)@ == after_finish_inspection(
                old(self)@,
                key@,
                match result {
                    Ok(snapshot) => Ok(snapshot@),
                    Err(message) => Err(message@),
                },
            ),
    {
        let is_current = key.context.same(&self.context) && match &self.phase {
            PatchInspectionPhase::Loading { key: active } => active.same(&key),
            _ => false,
        };
        if !is_current {
            return false;
        }
        self.phase = match result {
            Ok(snapshot) => PatchInspectionPhase::Ready { key, snapshot },
            Err(message) => PatchInspectionPhase::Failed { key, message },
        };
        true
    }

    /// Opens a confirmation for `operation` when no operation runs and the
    /// ready inspection shows that it changes something; whether it opened.
    pub fn request_operation(&mut self, operation: PatchOperation) -> (requested: bool)
        requires
            patch_state_well_formed(old(self)@),
        ensures
            patch_state_well_formed(final(self)@),
            requested == operation_requestable(old(self)@, operation),
            final(self)@ == after_request_operation(old(self)@, operation),
    {
        if self.active_operation.is_some() {
            return false;
        }
        let pending = match &self.phase {
            PatchInspectionPhase::Ready { key, snapshot } => {
                if !operation_available(snapshot, operation) {
                    return false;
                }
                PatchPendingConfirmation {
                    key: key.duplicate(),
                    operation,
                    executable: snapshot.executable.clone(),
                    backup: snapshot.backup.clone(),
                }
            },
            _ => return false,
        };
        self.pending_confirmation = Some(pending);
        true
    }

    /// Drops the pending confirmation.
    pub fn dismiss_confirmation(&mut self)
        requires
            patch_state_well_formed(old(self)@),
        ensures
            patch_state_well_formed(final(self)@),
            final(self)@ == (PatchStateView { pending: None, ..old(self)@ }),
    {
        self.pending_confirmation = None;
    }

    /// Launches the pending operation when it still matches the ready
    /// inspection of the current context and no operation runs. The
    /// confirmation is consumed either way.
    pub fn confirm_operation(&mut self) -> (launch: Option<PatchOperationLaunch>)
        requires
            patch_state_well_formed(old(self)@),
            old(self)@.next_request < u64::MAX,
        ensures
            patch_state_well_formed(final(self)@),
            final(self)@ == after_confirm(old(self)@).0,
            match launch {
                Some(l) => after_confirm(old(self)@).1 == Some(l.key_spec()),
                None => after_confirm(old(self)@).1 is None,
            },
    {
        if self.active_operation.is_some() {
            self.pending_confirmation = None;
            return None;
        }
        let pending = match self.pending_confirmation.take() {
            Some(pending) => pending,
            None => return None,
        };
        let ready_is_current = pending.key.context.same(&self.context) && match &self.phase {
            PatchInspectionPhase::Ready { key, .. } => key.same(&pending.key),
            _ => false,
        };
        if !ready_is_current {
            return None;
        }
        let request = self.next_request();
        let key = PatchOperationKey {
            request,
            context: self.context.duplicate(),
            operation: pending.operation,
            executable: pending.executable,
            backup: pending.backup,
        };
        self.active_operation = Some(key.duplicate());
        Some(PatchOperationLaunch { key })
    }

    /// Ends the running operation `key`; how it relates to the pane.
    pub fn finish_operation(&mut self, key: &PatchOperationKey) -> (finish: PatchFinish)
        requires
            patch_state_well_formed(old(self)@),
        ensures
            patch_state_well_formed(final(self)@),
            (final(self)@, finish) == after_finish_operation(old(self)@, key@),
    {
        let is_active = match &self.active_operation {
            Some(active) => active.same(key),
            None => false,
        };
        if !is_active {
            return PatchFinish::Ignored;
        }
        self.active_operation = None;
        if key.context.same(&self.context) {
            PatchFinish::Current
        } else {
            PatchFinish::ContextChanged
        }
    }
}

/// One operation owns every context: while it runs, no inspection starts,
/// no confirmation opens or launches, and context changes keep it running.
pub proof fn law_running_operation_excludes_others(
    s: PatchStateView,
    operation: PatchOperation,
    context: ContextView,
)
    requires
        s.active is Some,
    ensures
        after_begin_inspection(s).1 is None,
        !operation_requestable(s, operation),
        after_confirm(s).1 is None,
        after_set_context(s, context).0.active == s.active,
{
}

/// A result for an inspection of an earlier context is rejected once the
/// context has changed.
pub proof fn law_context_change_rejects_earlier_inspection(
    s: PatchStateView,
    context: ContextView,
    key: KeyView,
    result: Result<SnapshotView, Seq<char>>,
)
    requires
        contexts_match(key.context, s.context),
        !contexts_match(context, s.context),
    ensures
        ({
            let changed = after_set_context(s, context).0;
            &&& !inspection_is_current(changed, key)
            &&& after_finish_inspection(changed, key, result) == changed
        }),
{
}

/// Every inspection key is fresh: its request number exceeds every number
/// in use, so a result for an older key can never be taken for it.
pub proof fn law_inspection_keys_are_fresh(s: PatchStateView)
    requires
        patch_state_well_formed(s),
        can_inspect(s),
        s.next_request < u64::MAX,
    ensures
        after_begin_inspection(s).1 matches Some(key) && key.request > s.next_request && (
        s.phase matches PhaseView::Loading { key: old_key } ==> old_key != key),
{
}

/// Finishing the running operation releases the pane: an inspection of a
/// configured Crusaders root can start again.
pub proof fn law_finished_operation_releases_the_pane(s: PatchStateView)
    requires
        s.active is Some,
        s.context.game == Game::Crusaders,
        s.context.root is Some,
    ensures
        can_inspect(after_finish_operation(s, s.active.unwrap()).0),
        after_finish_operation(s, s.active.unwrap()).1 != PatchFinish::Ignored,
{
}

/// A patch can be set only when the ready inspection records the opposite
/// state: applying needs a patch recorded as not applied, removing needs one
/// recorded as applied, and a patch of unknown state or already in the
/// target state is never offered. Every such change is offered while no
/// operation runs.
pub proof fn law_patch_requests_change_the_recorded_state(
    s: PatchStateView,
    id: PatchID,
    target: PatchTarget,
)
    ensures
        operation_requestable(s, PatchOperation::SetPatch { id, target }) <==> {
            &&& s.active is None
            &&& s.phase matches PhaseView::Ready { snapshot, .. } && {
                let status = recorded_status(snapshot.patches, id);
                &&& status != PatchStatus::Unknown
                &&& target == PatchTarget::Applied ==> status == PatchStatus::NotApplied
                &&& target == PatchTarget::NotApplied ==> status == PatchStatus::Applied
            }
        },
{
}

/// A fire-rate preset can be chosen only when the ready inspection knows
/// the current rate and it is another one.
pub proof fn law_fire_rate_requests_change_the_rate(s: PatchStateView, id: FireRatePresetID)
    ensures
        operation_requestable(s, PatchOperation::SetFireRate { id }) <==> {
            &&& s.active is None
            &&& s.phase matches PhaseView::Ready { snapshot, .. } && {
                &&& snapshot.fire_rate != FireRateStatus::Unknown
                &&& snapshot.fire_rate != FireRateStatus::Preset(id)
            }
        },
{
}

} // verus!
