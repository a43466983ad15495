//! How the Mods pane starts and ends its operations: the notice an
//! operation posts while it runs, the notice and issue it leaves when it
//! ends, and the listing it then refreshes.

use vstd::prelude::*;
use vstd::string::*;

use crate::mod_actions::{refresh_scope, refresh_scope_of, ModRefreshScope};
use crate::mod_requests::{
    failure_title, in_progress_text, issue_identity, operation_failure_title,
    operation_in_progress_message, operation_issue_identity,
};
use crate::mod_status::{
    after_begin_operation, after_finish_operation, after_library_changed, next_key_spec,
    operation_is_current, recovery_lines, ModIssueScope, ModIssueSnapshot, ModOperationKind,
    ModPresentationState, ModRequestKey, ModScanScope, ModStateView, RecoveryReport,
};
use crate::notices::{
    after_begin, after_complete, error_detail, Notice, NoticeCenter, NoticeCenterView,
    NoticeLevel, NoticeScope, NoticeSource, NoticeView,
};

verus! {

/// Starts an operation of `kind` without confirmation, unless one runs,
/// and posts that it is in progress under its request.
pub fn begin_mod_operation(
    state: &mut ModPresentationState,
    notices: &mut NoticeCenter,
    kind: ModOperationKind,
) -> (key: Option<ModRequestKey>)
    requires
        old(notices).well_formed(),
        old(notices)@.next_sequence < u64::MAX,
    ensures
        final(notices).well_formed(),
        key is None <==> old(state)@.active_operation is Some,
        key is None ==> final(state)@ == old(state)@ && final(notices)@ == old(notices)@,
        key matches Some(k) ==> {
            &&& k == next_key_spec(old(state)@)
            &&& final(state)@ == after_begin_operation(old(state)@, kind)
            &&& exists|n: Notice|
                n@ == (NoticeView {
                    level: NoticeLevel::Info,
                    scope: NoticeScope::Workspace,
                    summary: in_progress_text(kind),
                    detail: Seq::empty(),
                }) && final(notices)@ == after_begin(
                    old(notices)@,
                    NoticeSource::Mods,
                    k.request.0,
                    n,
                )
        },
{
    let key = match state.begin_operation(kind) {
        Some(key) => key,
        None => {
            return None;
        },
    };
    let message = operation_in_progress_message(kind);
    let notice = Notice::info(message.as_str());
    let ghost shown = notice;
    notices.begin(NoticeSource::Mods, key.request().get(), notice);
    assert(shown@.summary == in_progress_text(kind));
    Some(key)
}

/// How an operation ended: a success message with the listing it changed,
/// or the error chain and recovery report of its failure.
#[derive(Debug)]
pub enum ModOperationOutcome {
    Succeeded { message: String, refresh: ModRefreshScope },
    Failed { chain: Vec<String>, recovery: Option<RecoveryReport> },
}

/// The scan that refreshes `scope` after an operation: a changed library
/// is scanned alone unless the pane is shown, anything else fully.
pub open spec fn refresh_scan(scope: ModRefreshScope, pane_shown: bool) -> ModScanScope {
    match scope {
        ModRefreshScope::Library => if pane_shown {
            ModScanScope::Full
        } else {
            ModScanScope::LibraryOnly
        },
        ModRefreshScope::Full => ModScanScope::Full,
    }
}

/// The pane after the listing `scope` was invalidated by an operation: a
/// changed library moves to a new revision.
pub open spec fn after_refresh(s: ModStateView, scope: ModRefreshScope) -> ModStateView {
    match scope {
        ModRefreshScope::Library => after_library_changed(s),
        ModRefreshScope::Full => s,
    }
}

/// The issue a failed operation leaves, as a value of its parts.
pub open spec fn failure_issue_matches(
    issue: ModIssueSnapshot,
    kind: ModOperationKind,
    key: ModRequestKey,
    chain: Seq<String>,
    recovery: Option<RecoveryReport>,
) -> bool {
    &&& issue.scope == ModIssueScope::Operation
    &&& issue.identity@ == issue_identity(key.request)
    &&& issue.title@ == failure_title(kind)
    &&& issue.detail@ == error_detail(chain)
    &&& issue.recovery_paths@.map_values(|line: String| line@) == match recovery {
        Some(r) => recovery_lines(r),
        None => Seq::empty(),
    }
}

/// Ends the operation launched as `kind` under `key` with `outcome`, when
/// it is still the current operation. A success completes the operation's
/// notice with its message; a failure records its issue and completes the
/// notice with the error. The listing the operation changed is then
/// invalidated, and the scan to start is returned.
pub fn finish_mod_operation(
    state: &mut ModPresentationState,
    notices: &mut NoticeCenter,
    kind: ModOperationKind,
    key: ModRequestKey,
    outcome: ModOperationOutcome,
    pane_shown: bool,
) -> (scan: Option<ModScanScope>)
    requires
        old(notices).well_formed(),
        old(notices)@.next_sequence < u64::MAX,
    ensures
        final(notices).well_formed(),
        scan is Some <==> operation_is_current(old(state)@, key),
        !operation_is_current(old(state)@, key) ==> final(state)@ == old(state)@
            && final(notices)@ == old(notices)@,
        operation_is_current(old(state)@, key) ==> match outcome {
            ModOperationOutcome::Succeeded { message, refresh } => {
                &&& scan == Some(refresh_scan(refresh, pane_shown))
                &&& final(state)@ == after_refresh(after_finish_operation(old(state)@), refresh)
                &&& exists|n: Notice|
                    n@ == (NoticeView {
                        level: NoticeLevel::Success,
                        scope: NoticeScope::Workspace,
                        summary: message@,
                        detail: Seq::empty(),
                    }) && final(notices)@ == after_complete(
                        old(notices)@,
                        NoticeSource::Mods,
                        key.request.0,
                        Some(n),
                    )
            },
            ModOperationOutcome::Failed { chain, recovery } => {
                &&& scan == Some(refresh_scan(refresh_scope_of(kind), pane_shown))
                &&& exists|issue: ModIssueSnapshot|
                    failure_issue_matches(issue, kind, key, chain@, recovery) && final(state)@
                        == after_refresh(
                        ModStateView {
                            operation_issues: old(state)@.operation_issues.push(issue),
                            ..after_finish_operation(old(state)@)
                        },
                        refresh_scope_of(kind),
                    )
                &&& exists|n: Notice|
                    n@ == (NoticeView {
                        level: NoticeLevel::Error,
                        scope: NoticeScope::Workspace,
                        summary: failure_title(kind),
                        detail: error_detail(chain@),
                    }) && final(notices)@ == after_complete(
                        old(notices)@,
                        NoticeSource::Mods,
                        key.request.0,
                        Some(n),
                    )
            },
        },
{
    let refresh = match outcome {
        ModOperationOutcome::Succeeded { message, refresh } => {
            if !state.finish_operation(key) {
                return None;
            }
            let notice = Notice::success(message.as_str());
            let ghost shown = notice;
            notices.complete(NoticeSource::Mods, key.request().get(), Some(notice));
            assert(shown@.summary == message@);
            refresh
        },
        ModOperationOutcome::Failed { chain, recovery } => {
            let title = operation_failure_title(kind);
            let identity = operation_issue_identity(key.request());
            let notice = Notice::error(title.as_str(), &chain);
            let issue = match &recovery {
                Some(report) => ModIssueSnapshot::from_error(
                    ModIssueScope::Operation,
                    identity.as_str(),
                    title.as_str(),
                    &chain,
                    Some(report),
                ),
                None => ModIssueSnapshot::from_error(
                    ModIssueScope::Operation,
                    identity.as_str(),
                    title.as_str(),
                    &chain,
                    None,
                ),
            };
            let ghost recorded = issue;
            if !state.fail_operation(key, issue) {
                return None;
            }
            assert(failure_issue_matches(recorded, kind, key, chain@, recovery));
            let ghost shown = notice;
            notices.complete(NoticeSource::Mods, key.request().get(), Some(notice));
            assert(shown@.summary == failure_title(kind));
            refresh_scope(kind)
        },
    };
    match refresh {
        ModRefreshScope::Library => {
            state.library_changed();
            if pane_shown {
                Some(ModScanScope::Full)
            } else {
                Some(ModScanScope::LibraryOnly)
            }
        },
        ModRefreshScope::Full => Some(ModScanScope::Full),
    }
}

/// A refresh scans only the library when only the library changed and the
/// pane is not shown; in every other case it scans everything.
pub proof fn law_refresh_scans_everything_unless_only_the_hidden_library_changed(
    scope: ModRefreshScope,
    pane_shown: bool,
)
    ensures
        refresh_scan(scope, pane_shown) == ModScanScope::LibraryOnly <==> (scope
            == ModRefreshScope::Library && !pane_shown),
{
}

} // verus!
