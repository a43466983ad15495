//! The decisions that end a Steam discovery request: whether its result
//! still counts, which notice completes it, and what follows from the game
//! roots it changed.

use vstd::prelude::*;

use crate::game::Game;
use crate::notices::{error_detail, Notice, NoticeLevel, NoticeScope, NoticeView};
use crate::work_notices::{discovery_notice, discovery_notice_view, optional_notice_view};

verus! {

/// What a finished discovery changed: the games whose roots it replaced, and
/// what it found.
#[derive(Debug)]
pub struct DiscoveryUpdate {
    pub changed_games: Vec<Game>,
    pub installation_count: usize,
    pub issue_count: usize,
}

/// How the discovery bookkeeping judged a finished request.
#[derive(Debug)]
pub enum DiscoveryFinish {
    /// A newer request or a root change made the result obsolete.
    Stale,
    /// Discovery failed; nothing changed.
    Failed,
    /// The result was applied.
    Ready(DiscoveryUpdate),
}

/// What the frame does with a finished discovery.
#[derive(Debug)]
pub enum DiscoveryStep {
    /// The result no longer counts: nothing changes and no notice is shown.
    Ignore,
    /// Complete the discovery notice with `notice` (none when there was no
    /// error to show).
    ReportFailure(Option<Notice>),
    /// Apply the update: when `write_settings`, write the settings first and
    /// settle the write with [`discovery_write_followup`]; then reconcile the
    /// save catalog and complete the discovery notice with `notice`.
    Apply { write_settings: bool, active_changed: bool, notice: Option<Notice> },
}

/// What follows an attempt to write the settings after discovery changed
/// some game roots.
#[derive(Clone, Copy, Debug, PartialEq, Eq, Structural)]
pub enum DiscoveryWriteFollowup {
    /// The write is scheduled and the active game's root changed: reload the
    /// game catalog.
    ReloadCatalog,
    /// The write is scheduled; the active game is unaffected.
    KeepCatalog,
    /// No write could be scheduled: restore the roots and their revisions as
    /// they were before the discovery.
    RollBack,
}

/// The summary of the notice that reports a failed discovery.
pub open spec fn discovery_failure_summary() -> Seq<char> {
    "Could not detect Steam installations"@
}

/// The notice that reports a failed discovery whose error chain is `chain`.
pub open spec fn discovery_failure_view(chain: Seq<String>) -> NoticeView {
    NoticeView {
        level: NoticeLevel::Error,
        scope: NoticeScope::Workspace,
        summary: discovery_failure_summary(),
        detail: error_detail(chain),
    }
}

/// Whether `game` occurs in `games`.
pub open spec fn game_changed(games: Seq<Game>, game: Game) -> bool {
    exists|i: int| 0 <= i < games.len() && games[i] == game
}

fn contains_game(games: &Vec<Game>, game: Game) -> (found: bool)
    ensures
        found == game_changed(games@, game),
{
    let mut i: usize = 0;
    while i < games.len()
        invariant
            i <= games@.len(),
            forall|j: int| 0 <= j < i ==> games@[j] != game,
        decreases games@.len() - i,
    {
        if games[i] == game {
            return true;
        }
        i = i + 1;
    }
    false
}

/// The step that ends a discovery request. `accepted` says whether the
/// shell still accepts the request, `finish` how the bookkeeping judged it,
/// `failure` the error chain of a failed discovery, and `active` the game
/// being edited.
pub fn discovery_step(
    accepted: bool,
    finish: &DiscoveryFinish,
    failure: &Option<Vec<String>>,
    active: Game,
) -> (step: DiscoveryStep)
    ensures
        !accepted ==> step is Ignore,
        accepted ==> match *finish {
            DiscoveryFinish::Stale => step is Ignore,
            DiscoveryFinish::Failed => step matches DiscoveryStep::ReportFailure(notice) && match *failure {
                Some(chain) => notice matches Some(n) && n@ == discovery_failure_view(chain@),
                None => notice is None,
            },
            DiscoveryFinish::Ready(update) => step matches DiscoveryStep::Apply {
                write_settings,
                active_changed,
                notice,
            } && {
                &&& write_settings == (update.changed_games@.len() > 0)
                &&& active_changed == game_changed(update.changed_games@, active)
                &&& optional_notice_view(notice) == discovery_notice_view(
                    update.installation_count as nat,
                    update.issue_count as nat,
                )
            },
        },
{
    if !accepted {
        return DiscoveryStep::Ignore;
    }
    match finish {
        DiscoveryFinish::Stale => DiscoveryStep::Ignore,
        DiscoveryFinish::Failed => {
            let notice = match failure {
                Some(chain) => Some(Notice::error("Could not detect Steam installations", chain)),
                None => None,
            };
            DiscoveryStep::ReportFailure(notice)
        },
        DiscoveryFinish::Ready(update) => DiscoveryStep::Apply {
            write_settings: update.changed_games.len() > 0,
            active_changed: contains_game(&update.changed_games, active),
            notice: discovery_notice(update.installation_count, update.issue_count),
        },
    }
}

/// What follows the settings write that discovery asked for: a write that
/// could not be scheduled rolls the roots back; one that was reloads the
/// catalog when the active game's root changed.
pub fn discovery_write_followup(scheduled: bool, active_changed: bool) -> (followup:
    DiscoveryWriteFollowup)
    ensures
        !scheduled ==> followup == DiscoveryWriteFollowup::RollBack,
        scheduled && active_changed ==> followup == DiscoveryWriteFollowup::ReloadCatalog,
        scheduled && !active_changed ==> followup == DiscoveryWriteFollowup::KeepCatalog,
{
    if !scheduled {
        DiscoveryWriteFollowup::RollBack
    } else if active_changed {
        DiscoveryWriteFollowup::ReloadCatalog
    } else {
        DiscoveryWriteFollowup::KeepCatalog
    }
}

/// The active game's root changes only together with some root, so a
/// catalog reload is only ever asked for after a settings write.
pub proof fn law_reload_only_follows_a_write(games: Seq<Game>, active: Game)
    ensures
        game_changed(games, active) ==> games.len() > 0,
{
}

} // verus!
