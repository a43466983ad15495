//! Status notices and the arbitration between the sources that post them.

use vstd::prelude::*;
use vstd::string::*;

use crate::game::Game;

verus! {

/// How urgent a notice is.
#[derive(Clone, Copy, Debug, PartialEq, Eq, Structural)]
pub enum NoticeLevel {
    Info,
    Success,
    Warning,
    Error,
}

/// Whether a notice reports on the workspace or on the active editor.
#[derive(Clone, Copy, Debug, PartialEq, Eq, Structural)]
pub enum NoticeScope {
    Workspace,
    Editor,
}

/// A status line with an optional multi-line detail.
#[derive(Debug)]
pub struct Notice {
    level: NoticeLevel,
    scope: NoticeScope,
    summary: String,
    detail: String,
}

/// The content of a [`Notice`].
pub struct NoticeView {
    pub level: NoticeLevel,
    pub scope: NoticeScope,
    pub summary: Seq<char>,
    pub detail: Seq<char>,
}

impl View for Notice {
    type V = NoticeView;

    closed spec fn view(&self) -> NoticeView {
        NoticeView {
            level: self.level,
            scope: self.scope,
            summary: self.summary@,
            detail: self.detail@,
        }
    }
}

/// `parts` joined with `separator` between consecutive parts.
pub open spec fn joined(parts: Seq<Seq<char>>, separator: Seq<char>) -> Seq<char>
    decreases parts.len(),
{
    if parts.len() == 0 {
        Seq::empty()
    } else if parts.len() == 1 {
        parts[0]
    } else {
        joined(parts.drop_last(), separator) + separator + parts.last()
    }
}

/// The messages of an error chain, outermost first, as text.
pub open spec fn chain_view(chain: Seq<String>) -> Seq<Seq<char>> {
    chain.map_values(|message: String| message@)
}

/// The detail text of an error: its message, then one `Caused by:` line per
/// source in its chain.
pub open spec fn error_detail(chain: Seq<String>) -> Seq<char> {
    joined(chain_view(chain), "\nCaused by: "@)
}

/// One line of a batch detail: the prefix, a colon, and the error's detail.
pub open spec fn error_line(line: (String, Vec<String>)) -> Seq<char> {
    line.0@ + ": "@ + error_detail(line.1@)
}

/// The detail of a batch of failures: one error line each, newline separated.
pub open spec fn error_lines_detail(lines: Seq<(String, Vec<String>)>) -> Seq<char> {
    joined(lines.map_values(|line: (String, Vec<String>)| error_line(line)), "\n"@)
}

proof fn lemma_joined_step(parts: Seq<Seq<char>>, separator: Seq<char>, i: int)
    requires
        0 < i < parts.len(),
    ensures
        joined(parts.take(i + 1), separator) == joined(parts.take(i), separator) + separator
            + parts[i],
{
    assert(parts.take(i + 1).drop_last() =~= parts.take(i));
}

/// Joins the messages of an error chain into a notice detail.
pub fn format_error(chain: &Vec<String>) -> (detail: String)
    ensures
        detail@ == error_detail(chain@),
{
    let ghost parts = chain_view(chain@);
    let mut detail = String::new();
    let mut i: usize = 0;
    while i < chain.len()
        invariant
            i <= chain.len(),
            parts == chain_view(chain@),
            detail@ == joined(parts.take(i as int), "\nCaused by: "@),
        decreases chain.len() - i,
    {
        proof {
            if i > 0 {
                lemma_joined_step(parts, "\nCaused by: "@, i as int);
            } else {
                assert(parts.take(1) =~= seq![parts[0]]);
            }
        }
        if i > 0 {
            detail.append("\nCaused by: ");
        }
        detail.append(chain[i].as_str());
        i = i + 1;
    }
    assert(parts.take(chain.len() as int) =~= parts);
    detail
}

impl Notice {
    /// A copy of this notice.
    pub fn duplicate(&self) -> (copy: Notice)
        ensures
            copy == *self,
    {
        Notice {
            level: self.level,
            scope: self.scope,
            summary: self.summary.clone(),
            detail: self.detail.clone(),
        }
    }

    /// A workspace notice without detail.
    pub fn plain(level: NoticeLevel, summary: &str) -> (notice: Self)
        ensures
            notice@ == (NoticeView {
                level,
                scope: NoticeScope::Workspace,
                summary: summary@,
                detail: Seq::empty(),
            }),
    {
        Notice {
            level,
            scope: NoticeScope::Workspace,
            summary: summary.to_owned(),
            detail: String::new(),
        }
    }

    /// An informational workspace notice.
    pub fn info(summary: &str) -> (notice: Self)
        ensures
            notice@ == (NoticeView {
                level: NoticeLevel::Info,
                scope: NoticeScope::Workspace,
                summary: summary@,
                detail: Seq::empty(),
            }),
    {
        Self::plain(NoticeLevel::Info, summary)
    }

    /// A success notice for the workspace.
    pub fn success(summary: &str) -> (notice: Self)
        ensures
            notice@ == (NoticeView {
                level: NoticeLevel::Success,
                scope: NoticeScope::Workspace,
                summary: summary@,
                detail: Seq::empty(),
            }),
    {
        Self::plain(NoticeLevel::Success, summary)
    }

    /// An error notice whose detail lists the error chain `chain`, outermost
    /// message first.
    pub fn error(summary: &str, chain: &Vec<String>) -> (notice: Self)
        ensures
            notice@ == (NoticeView {
                level: NoticeLevel::Error,
                scope: NoticeScope::Workspace,
                summary: summary@,
                detail: error_detail(chain@),
            }),
    {
        Notice {
            level: NoticeLevel::Error,
            scope: NoticeScope::Workspace,
            summary: summary.to_owned(),
            detail: format_error(chain),
        }
    }

    /// An error notice for a batch of failures, one `prefix: detail` line each.
    pub fn error_lines(summary: &str, lines: &Vec<(String, Vec<String>)>) -> (notice: Self)
        ensures
            notice@ == (NoticeView {
                level: NoticeLevel::Error,
                scope: NoticeScope::Workspace,
                summary: summary@,
                detail: error_lines_detail(lines@),
            }),
    {
        let ghost parts = lines@.map_values(|line: (String, Vec<String>)| error_line(line));
        let mut detail = String::new();
        let mut i: usize = 0;
        while i < lines.len()
            invariant
                i <= lines.len(),
                parts == lines@.map_values(|line: (String, Vec<String>)| error_line(line)),
                detail@ == joined(parts.take(i as int), "\n"@),
            decreases lines.len() - i,
        {
            proof {
                if i > 0 {
                    lemma_joined_step(parts, "\n"@, i as int);
                } else {
                    assert(parts.take(1) =~= seq![parts[0]]);
                }
            }
            if i > 0 {
                detail.append("\n");
            }
            let line = format_error(&lines[i].1);
            let mut text = lines[i].0.clone();
            text.append(": ");
            text.append(line.as_str());
            assert(text@ == error_line(lines@[i as int]));
            detail.append(text.as_str());
            i = i + 1;
        }
        assert(parts.take(lines.len() as int) =~= parts);
        Notice {
            level: NoticeLevel::Error,
            scope: NoticeScope::Workspace,
            summary: summary.to_owned(),
            detail,
        }
    }

    /// An informational notice about the active editor.
    pub fn editor_info(summary: &str) -> (notice: Self)
        ensures
            notice@ == (NoticeView {
                level: NoticeLevel::Info,
                scope: NoticeScope::Editor,
                summary: summary@,
                detail: Seq::empty(),
            }),
    {
        let mut notice = Self::info(summary);
        notice.scope = NoticeScope::Editor;
        notice
    }

    /// An error notice about the active editor.
    pub fn editor_error(summary: &str, chain: &Vec<String>) -> (notice: Self)
        ensures
            notice@ == (NoticeView {
                level: NoticeLevel::Error,
                scope: NoticeScope::Editor,
                summary: summary@,
                detail: error_detail(chain@),
            }),
    {
        let mut notice = Self::error(summary, chain);
        notice.scope = NoticeScope::Editor;
        notice
    }

    /// The notice's level.
    pub fn level(&self) -> (level: NoticeLevel)
        ensures
            level == self@.level,
    {
        self.level
    }

    /// The notice's summary line.
    pub fn summary(&self) -> (summary: &str)
        ensures
            summary@ == self@.summary,
    {
        self.summary.as_str()
    }

    /// The notice's detail text.
    pub fn detail(&self) -> (detail: &str)
        ensures
            detail@ == self@.detail,
    {
        self.detail.as_str()
    }

    /// Whether the notice reports on the active editor.
    pub fn is_editor_feedback(&self) -> (editor: bool)
        ensures
            editor == (self@.scope == NoticeScope::Editor),
    {
        match self.scope {
            NoticeScope::Editor => true,
            NoticeScope::Workspace => false,
        }
    }
}

/// Who posted a notice. Each source owns one slot in the notice center.
#[derive(Clone, Copy, Debug, PartialEq, Eq, Hash, Structural)]
pub enum NoticeSource {
    Workspace,
    Editor,
    Startup,
    SettingsWrite,
    Open,
    Browse(Game),
    Discovery,
    Catalog,
    Mods,
}

/// The number of distinct notice sources.
pub const SOURCE_COUNT: usize = 10;

/// The position of a source's slot.
pub open spec fn source_index(source: NoticeSource) -> int {
    match source {
        NoticeSource::Workspace => 0,
        NoticeSource::Editor => 1,
        NoticeSource::Startup => 2,
        NoticeSource::SettingsWrite => 3,
        NoticeSource::Open => 4,
        NoticeSource::Browse(Game::Crusaders) => 5,
        NoticeSource::Browse(Game::Heroes) => 6,
        NoticeSource::Discovery => 7,
        NoticeSource::Catalog => 8,
        NoticeSource::Mods => 9,
    }
}

proof fn lemma_source_index(a: NoticeSource, b: NoticeSource)
    ensures
        0 <= source_index(a) < SOURCE_COUNT,
        source_index(a) == source_index(b) ==> a == b,
{
}

fn slot_index(source: NoticeSource) -> (index: usize)
    ensures
        index as int == source_index(source),
{
    match source {
        NoticeSource::Workspace => 0,
        NoticeSource::Editor => 1,
        NoticeSource::Startup => 2,
        NoticeSource::SettingsWrite => 3,
        NoticeSource::Open => 4,
        NoticeSource::Browse(Game::Crusaders) => 5,
        NoticeSource::Browse(Game::Heroes) => 6,
        NoticeSource::Discovery => 7,
        NoticeSource::Catalog => 8,
        NoticeSource::Mods => 9,
    }
}

/// Who owns a slot: a notice the center posted itself, or an outside
/// request identified by its caller.
#[derive(Clone, Copy, Debug, PartialEq, Eq, Structural)]
pub enum NoticeIdentity {
    Local(u64),
    External(u64),
}

/// One owner of a source slot, with the owners it superseded while pending
/// beneath it. A pending owner shows the notice of the owner below it.
struct NoticeSlot {
    identity: NoticeIdentity,
    sequence: u64,
    notice: Option<Notice>,
    suspended: Option<Box<NoticeSlot>>,
}

/// The abstract state of a source slot: its owners from the newest down,
/// and the notice that it shows with the sequence number that orders it.
pub struct SlotView {
    pub stack: Seq<NoticeIdentity>,
    pub sequence: u64,
    pub notice: Option<Notice>,
}

impl NoticeSlot {
    spec fn stack(self) -> Seq<NoticeIdentity>
        decreases self,
    {
        match self.suspended {
            Some(below) => seq![self.identity] + below.stack(),
            None => seq![self.identity],
        }
    }

    /// Every pending owner mirrors the shown notice of the owner below it.
    spec fn well_formed(self) -> bool
        decreases self,
    {
        match self.suspended {
            Some(below) => below.sequence == self.sequence && below.notice == self.notice
                && below.well_formed(),
            None => true,
        }
    }

    spec fn slot_view(self) -> SlotView {
        SlotView { stack: self.stack(), sequence: self.sequence, notice: self.notice }
    }

    proof fn lemma_stack(self)
        ensures
            self.stack().len() >= 1,
            self.stack()[0] == self.identity,
            self.suspended is None ==> self.stack() == seq![self.identity],
            self.suspended matches Some(below) ==> self.stack().drop_first() == below.stack(),
    {
        match self.suspended {
            Some(below) => {
                assert((seq![self.identity] + below.stack()).drop_first() =~= below.stack());
            },
            None => {},
        }
    }

    fn contains_identity(&self, identity: NoticeIdentity) -> (found: bool)
        ensures
            found == self.stack().contains(identity),
        decreases self,
    {
        proof {
            self.lemma_stack();
        }
        if self.identity == identity {
            assert(self.stack()[0] == identity);
            return true;
        }
        match &self.suspended {
            Some(below) => {
                let found = below.contains_identity(identity);
                proof {
                    below.lemma_stack();
                    let s = self.stack();
                    if found {
                        let j = choose|j: int| 0 <= j < below.stack().len() && below.stack()[j]
                            == identity;
                        assert(s[j + 1] == identity);
                    } else {
                        assert forall|j: int| 0 <= j < s.len() implies s[j] != identity by {
                            if j > 0 {
                                assert(s[j] == below.stack()[j - 1]);
                            }
                        }
                    }
                }
                found
            },
            None => {
                proof {
                    assert(self.stack() == seq![self.identity]);
                }
                false
            },
        }
    }

    fn complete_suspended(
        &mut self,
        identity: NoticeIdentity,
        notice: Option<Notice>,
        sequence: u64,
    ) -> (completed: bool)
        requires
            old(self).well_formed(),
        ensures
            final(self).well_formed(),
            completed == old(self).stack().drop_first().contains(identity),
            !completed ==> *final(self) == *old(self),
            completed ==> {
                let k = 1 + first_index(old(self).stack().drop_first(), identity);
                &&& final(self).stack() == (if notice is Some {
                    old(self).stack().take(k + 1)
                } else {
                    old(self).stack().take(k)
                })
                &&& final(self).sequence == sequence
                &&& final(self).notice == notice
            },
        decreases *old(self),
    {
        proof {
            old(self).lemma_stack();
        }
        if self.suspended.is_none() {
            return false;
        }
        let mut below = self.suspended.take().unwrap();
        proof {
            below.lemma_stack();
        }
        let ghost old_below = *below;
        let direct_match = below.identity == identity;
        let completed = if direct_match {
            proof {
                assert(old_below.stack()[0] == identity);
                assert(first_index(old_below.stack(), identity) == 0);
            }
            match notice {
                Some(n) => {
                    let n_copy = n.duplicate();
                    *below = NoticeSlot { identity, sequence, notice: Some(n), suspended: None };
                    self.sequence = sequence;
                    self.notice = Some(n_copy);
                    assert(below.well_formed());
                    self.suspended = Some(below);
                    assert(self.well_formed());
                    proof {
                        let fresh = *self.suspended.unwrap();
                        fresh.lemma_stack();
                        assert(self.stack() =~= old(self).stack().take(2));
                    }
                },
                None => {
                    self.sequence = sequence;
                    self.notice = None;
                    assert(self.well_formed());
                    assert(self.stack() =~= old(self).stack().take(1));
                },
            }
            true
        } else {
            let completed = (&mut *below).complete_suspended(identity, notice, sequence);
            proof {
                lemma_first_index_skip(old_below.stack(), identity);
                if completed {
                    let k0 = 1 + first_index(old_below.stack().drop_first(), identity);
                    assert(first_index(old_below.stack(), identity) == k0);
                    lemma_first_index(old_below.stack(), identity);
                    below.lemma_stack();
                } else {
                    assert(!old_below.stack().contains(identity));
                }
            }
            if completed {
                self.sequence = below.sequence;
                self.notice = clone_notice(&below.notice);
            }
            self.suspended = Some(below);
            assert(self.well_formed());
            proof {
                if completed {
                    let k0 = first_index(old_below.stack(), identity);
                    assert(old(self).stack() == seq![old(self).identity] + old_below.stack());
                    assert(self.stack() == seq![self.identity] + below.stack());
                    if notice is Some {
                        assert(self.stack() =~= old(self).stack().take(k0 + 2));
                    } else {
                        assert(self.stack() =~= old(self).stack().take(k0 + 1));
                    }
                }
            }
            completed
        };
        completed
    }
}

/// The position of the first occurrence of `id` in `s`.
pub open spec fn first_index(s: Seq<NoticeIdentity>, id: NoticeIdentity) -> int
    decreases s.len(),
{
    if s.len() == 0 {
        0
    } else if s[0] == id {
        0
    } else {
        1 + first_index(s.drop_first(), id)
    }
}

proof fn lemma_first_index(s: Seq<NoticeIdentity>, id: NoticeIdentity)
    requires
        s.contains(id),
    ensures
        0 <= first_index(s, id) < s.len(),
        s[first_index(s, id)] == id,
        forall|j: int| 0 <= j < first_index(s, id) ==> s[j] != id,
    decreases s.len(),
{
    if s[0] != id {
        let j = choose|j: int| 0 <= j < s.len() && s[j] == id;
        assert(s.drop_first()[j - 1] == id);
        lemma_first_index(s.drop_first(), id);
        assert forall|i: int| 0 <= i < first_index(s, id) implies s[i] != id by {
            if i > 0 {
                assert(s[i] == s.drop_first()[i - 1]);
            }
        }
    }
}

proof fn lemma_first_index_skip(s: Seq<NoticeIdentity>, id: NoticeIdentity)
    requires
        s.len() > 0,
        s[0] != id,
    ensures
        first_index(s, id) == 1 + first_index(s.drop_first(), id),
        s.contains(id) == s.drop_first().contains(id),
{
    if s.contains(id) {
        let j = choose|j: int| 0 <= j < s.len() && s[j] == id;
        assert(s.drop_first()[j - 1] == id);
    }
    if s.drop_first().contains(id) {
        let j = choose|j: int| 0 <= j < s.drop_first().len() && s.drop_first()[j] == id;
        assert(s[j + 1] == id);
    }
}

fn clone_notice(notice: &Option<Notice>) -> (copy: Option<Notice>)
    ensures
        copy == *notice,
{
    match notice {
        Some(n) => Some(n.duplicate()),
        None => None,
    }
}

/// The notices posted per source, and the counters that identify local
/// notices and order all of them.
pub struct NoticeCenter {
    slots: Vec<Option<NoticeSlot>>,
    next_identity: u64,
    next_sequence: u64,
}

/// The abstract state of a [`NoticeCenter`].
pub struct NoticeCenterView {
    pub slots: Map<NoticeSource, SlotView>,
    pub next_identity: u64,
    pub next_sequence: u64,
}

/// The rank of a notice: level priority first, then sequence.
pub open spec fn outranked_by(lower: SlotView, higher: SlotView) -> bool {
    let pl = priority_of(lower.notice.unwrap()@.level);
    let ph = priority_of(higher.notice.unwrap()@.level);
    pl < ph || (pl == ph && lower.sequence <= higher.sequence)
}

/// `source` shows a notice, and no other shown notice outranks it.
pub open spec fn is_current_source(v: NoticeCenterView, source: NoticeSource) -> bool {
    &&& v.slots.contains_key(source)
    &&& v.slots[source].notice is Some
    &&& forall|other: NoticeSource|
        #![trigger v.slots[other]]
        v.slots.contains_key(other) && v.slots[other].notice is Some ==> outranked_by(
            v.slots[other],
            v.slots[source],
        )
}

/// The notice that the center displays: the shown notice of the highest
/// level, and among those the newest.
pub open spec fn current_notice(v: NoticeCenterView) -> Option<Notice> {
    if exists|s: NoticeSource| is_current_source(v, s) {
        v.slots[choose|s: NoticeSource| is_current_source(v, s)].notice
    } else {
        None
    }
}

/// The numeric priority of a level.
pub open spec fn priority_of(level: NoticeLevel) -> int {
    match level {
        NoticeLevel::Info => 0,
        NoticeLevel::Success => 1,
        NoticeLevel::Warning => 2,
        NoticeLevel::Error => 3,
    }
}

/// The slot that [`NoticeCenter::complete`] leaves behind when `identity`
/// occurs in `slot`'s owners: the owners down to the first occurrence stay,
/// the completion notice is shown under a fresh sequence, and a missing
/// notice drops the completed owner itself; a slot left without owners is
/// removed.
pub open spec fn completed_slot(
    slot: SlotView,
    identity: NoticeIdentity,
    notice: Option<Notice>,
    sequence: u64,
) -> Option<SlotView> {
    let k = first_index(slot.stack, identity);
    if notice is Some {
        Some(SlotView { stack: slot.stack.take(k + 1), sequence, notice })
    } else if k == 0 {
        None
    } else {
        Some(SlotView { stack: slot.stack.take(k), sequence, notice: None })
    }
}


/// The center after [`NoticeCenter::replace`]: the source's slot belongs to
/// a fresh local owner showing `notice` under a fresh sequence.
pub open spec fn after_replace(v: NoticeCenterView, source: NoticeSource, notice: Notice) -> NoticeCenterView {
    NoticeCenterView {
        slots: v.slots.insert(
            source,
            SlotView {
                stack: seq![NoticeIdentity::Local(v.next_identity)],
                sequence: v.next_sequence,
                notice: Some(notice),
            },
        ),
        next_identity: (v.next_identity + 1) as u64,
        next_sequence: (v.next_sequence + 1) as u64,
    }
}

/// The center after [`NoticeCenter::begin`]: the source's slot belongs to
/// the outside request alone, showing `notice` under a fresh sequence.
pub open spec fn after_begin(v: NoticeCenterView, source: NoticeSource, identity: u64, notice: Notice) -> NoticeCenterView {
    NoticeCenterView {
        slots: v.slots.insert(
            source,
            SlotView {
                stack: seq![NoticeIdentity::External(identity)],
                sequence: v.next_sequence,
                notice: Some(notice),
            },
        ),
        next_sequence: (v.next_sequence + 1) as u64,
        ..v
    }
}

/// The center after [`NoticeCenter::begin_pending`]: the request becomes
/// the newest owner; the slot keeps showing what it showed, and an empty
/// slot shows nothing under a fresh sequence.
pub open spec fn after_begin_pending(v: NoticeCenterView, source: NoticeSource, identity: u64) -> NoticeCenterView {
    if v.slots.contains_key(source) {
        let previous = v.slots[source];
        NoticeCenterView {
            slots: v.slots.insert(
                source,
                SlotView {
                    stack: seq![NoticeIdentity::External(identity)] + previous.stack,
                    ..previous
                },
            ),
            ..v
        }
    } else {
        NoticeCenterView {
            slots: v.slots.insert(
                source,
                SlotView {
                    stack: seq![NoticeIdentity::External(identity)],
                    sequence: v.next_sequence,
                    notice: None,
                },
            ),
            next_sequence: (v.next_sequence + 1) as u64,
            ..v
        }
    }
}

/// Whether [`NoticeCenter::cancel`] applies: the request is the newest
/// owner of the source's slot.
pub open spec fn cancels(v: NoticeCenterView, source: NoticeSource, identity: u64) -> bool {
    v.slots.contains_key(source) && v.slots[source].stack[0] == NoticeIdentity::External(identity)
}

/// The center after [`NoticeCenter::cancel`]: the newest owner leaves; the
/// owner below it takes the slot back, and a slot left empty is removed.
pub open spec fn after_cancel(v: NoticeCenterView, source: NoticeSource, identity: u64) -> NoticeCenterView {
    if !cancels(v, source, identity) {
        v
    } else if v.slots[source].stack.len() == 1 {
        NoticeCenterView { slots: v.slots.remove(source), ..v }
    } else {
        let previous = v.slots[source];
        NoticeCenterView {
            slots: v.slots.insert(source, SlotView { stack: previous.stack.drop_first(), ..previous }),
            ..v
        }
    }
}

/// Whether [`NoticeCenter::complete`] applies: the request still owns part
/// of the source's slot.
pub open spec fn completes(v: NoticeCenterView, source: NoticeSource, identity: u64) -> bool {
    v.slots.contains_key(source) && v.slots[source].stack.contains(NoticeIdentity::External(identity))
}

/// The center after [`NoticeCenter::complete`].
pub open spec fn after_complete(
    v: NoticeCenterView,
    source: NoticeSource,
    identity: u64,
    notice: Option<Notice>,
) -> NoticeCenterView {
    if !completes(v, source, identity) {
        v
    } else {
        NoticeCenterView {
            slots: match completed_slot(
                v.slots[source],
                NoticeIdentity::External(identity),
                notice,
                v.next_sequence,
            ) {
                Some(slot) => v.slots.insert(source, slot),
                None => v.slots.remove(source),
            },
            next_sequence: (v.next_sequence + 1) as u64,
            ..v
        }
    }
}

/// The center after [`NoticeCenter::clear`].
pub open spec fn after_clear(v: NoticeCenterView, source: NoticeSource) -> NoticeCenterView {
    NoticeCenterView { slots: v.slots.remove(source), ..v }
}

impl View for NoticeCenter {
    type V = NoticeCenterView;

    closed spec fn view(&self) -> NoticeCenterView {
        NoticeCenterView {
            slots: Map::new(
                |s: NoticeSource| self.slots@[source_index(s)] is Some,
                |s: NoticeSource| self.slots@[source_index(s)].unwrap().slot_view(),
            ),
            next_identity: self.next_identity,
            next_sequence: self.next_sequence,
        }
    }
}

/// What holds of every center that the operations reach: each slot has at
/// least one owner, and the sequences of the slots are distinct and already
/// allocated.
pub open spec fn center_view_well_formed(v: NoticeCenterView) -> bool {
    &&& forall|s: NoticeSource| #[trigger]
        v.slots.contains_key(s) ==> v.slots[s].stack.len() > 0 && v.slots[s].sequence
            < v.next_sequence
    &&& forall|s: NoticeSource, t: NoticeSource|
        #![trigger v.slots[s], v.slots[t]]
        s != t && v.slots.contains_key(s) && v.slots.contains_key(t) ==> v.slots[s].sequence
            != v.slots[t].sequence
}

impl NoticeCenter {
    /// Every slot keeps its owners consistent, and the sequences of the
    /// slots are distinct and already allocated.
    pub closed spec fn well_formed(&self) -> bool {
        &&& self.slots@.len() == SOURCE_COUNT
        &&& forall|i: int|
            0 <= i < SOURCE_COUNT && (#[trigger] self.slots@[i]) is Some ==> {
                &&& self.slots@[i].unwrap().well_formed()
                &&& self.slots@[i].unwrap().sequence < self.next_sequence
            }
        &&& forall|i: int, j: int|
            0 <= i < SOURCE_COUNT && 0 <= j < SOURCE_COUNT && i != j && (
            #[trigger] self.slots@[i]) is Some && (#[trigger] self.slots@[j]) is Some
                ==> self.slots@[i].unwrap().sequence != self.slots@[j].unwrap().sequence
    }

    /// A center with no notices.
    pub fn new() -> (center: Self)
        ensures
            center.well_formed(),
            center@.slots == Map::<NoticeSource, SlotView>::empty(),
            center@.next_identity == 0,
            center@.next_sequence == 0,
    {
        let mut slots: Vec<Option<NoticeSlot>> = Vec::new();
        let mut i: usize = 0;
        while i < SOURCE_COUNT
            invariant
                i <= SOURCE_COUNT,
                slots@.len() == i,
                forall|j: int| 0 <= j < i ==> slots@[j] is None,
            decreases SOURCE_COUNT - i,
        {
            slots.push(None);
            i = i + 1;
        }
        let center = NoticeCenter { slots, next_identity: 0, next_sequence: 0 };
        assert(center@.slots =~= Map::<NoticeSource, SlotView>::empty()) by {
            assert forall|s: NoticeSource| !center@.slots.contains_key(s) by {
                lemma_source_index(s, s);
            }
        }
        center
    }

    /// A well-formed center has a well-formed view.
    pub proof fn lemma_view_well_formed(&self)
        requires
            self.well_formed(),
        ensures
            center_view_well_formed(self@),
    {
        let v = self@;
        assert forall|s: NoticeSource| #[trigger]
            v.slots.contains_key(s) implies v.slots[s].stack.len() > 0 && v.slots[s].sequence
            < v.next_sequence by {
            lemma_source_index(s, s);
            self.slots@[source_index(s)].unwrap().lemma_stack();
        }
        assert forall|s: NoticeSource, t: NoticeSource|
            s != t && v.slots.contains_key(s) && v.slots.contains_key(
                t,
            ) implies #[trigger] v.slots[s].sequence != #[trigger] v.slots[t].sequence by {
            lemma_source_index(s, t);
            lemma_source_index(t, s);
        }
    }

    proof fn lemma_view_at(&self, source: NoticeSource)
        ensures
            self@.slots.contains_key(source) == self.slots@[source_index(source)] is Some,
            self@.slots.contains_key(source) ==> self@.slots[source]
                == self.slots@[source_index(source)].unwrap().slot_view(),
    {
    }

    fn take_slot(&mut self, index: usize) -> (slot: Option<NoticeSlot>)
        requires
            index < old(self).slots@.len(),
        ensures
            slot == old(self).slots@[index as int],
            final(self).slots@ == old(self).slots@.update(index as int, None),
            final(self).next_identity == old(self).next_identity,
            final(self).next_sequence == old(self).next_sequence,
    {
        let slot = self.slots.remove(index);
        self.slots.insert(index, None);
        assert(self.slots@ =~= old(self).slots@.update(index as int, None));
        slot
    }

    fn allocate_sequence(&mut self) -> (sequence: u64)
        requires
            old(self).next_sequence < u64::MAX,
        ensures
            sequence == old(self).next_sequence,
            final(self).next_sequence == old(self).next_sequence + 1,
            final(self).next_identity == old(self).next_identity,
            final(self).slots == old(self).slots,
    {
        let sequence = self.next_sequence;
        self.next_sequence = self.next_sequence + 1;
        sequence
    }

    /// Makes `slot` the slot of `source`; other sources keep theirs.
    fn install(&mut self, source: NoticeSource, slot: Option<NoticeSlot>)
        requires
            old(self).slots@.len() == SOURCE_COUNT,
        ensures
            final(self).slots@ == old(self).slots@.update(source_index(source), slot),
            final(self).next_identity == old(self).next_identity,
            final(self).next_sequence == old(self).next_sequence,
            final(self)@.slots == (match slot {
                Some(s) => old(self)@.slots.insert(source, s.slot_view()),
                None => old(self)@.slots.remove(source),
            }),
    {
        let index = slot_index(source);
        let ghost installed = slot;
        self.slots.set(index, slot);
        proof {
            let slot = installed;
            assert forall|s: NoticeSource| true implies {
                &&& self@.slots.contains_key(s) == (match slot {
                    Some(x) => old(self)@.slots.insert(source, x.slot_view()),
                    None => old(self)@.slots.remove(source),
                }).contains_key(s)
            } by {
                lemma_source_index(s, source);
            }
            match slot {
                Some(x) => {
                    assert(self@.slots =~= old(self)@.slots.insert(source, x.slot_view())) by {
                        assert forall|s: NoticeSource| self@.slots.contains_key(s) implies
                            self@.slots[s] == old(self)@.slots.insert(source, x.slot_view())[s] by {
                            lemma_source_index(s, source);
                        }
                    }
                },
                None => {
                    assert(self@.slots =~= old(self)@.slots.remove(source)) by {
                        assert forall|s: NoticeSource| self@.slots.contains_key(s) implies
                            self@.slots[s] == old(self)@.slots.remove(source)[s] by {
                            lemma_source_index(s, source);
                        }
                    }
                },
            }
        }
    }

    /// Posts a notice that the center owns itself, superseding every owner
    /// of the source's slot.
    pub fn replace(&mut self, source: NoticeSource, notice: Notice)
        requires
            old(self).well_formed(),
            old(self)@.next_identity < u64::MAX,
            old(self)@.next_sequence < u64::MAX,
        ensures
            final(self).well_formed(),
            final(self)@ == after_replace(old(self)@, source, notice),
    {
        let identity = self.next_identity;
        self.next_identity = self.next_identity + 1;
        self.insert(source, NoticeIdentity::Local(identity), Some(notice));
    }

    /// Posts the notice of the outside request `identity`, superseding every
    /// owner of the source's slot.
    pub fn begin(&mut self, source: NoticeSource, identity: u64, notice: Notice)
        requires
            old(self).well_formed(),
            old(self)@.next_sequence < u64::MAX,
        ensures
            final(self).well_formed(),
            final(self)@ == after_begin(old(self)@, source, identity, notice),
    {
        self.insert(source, NoticeIdentity::External(identity), Some(notice));
    }

    fn insert(&mut self, source: NoticeSource, identity: NoticeIdentity, notice: Option<Notice>)
        requires
            old(self).well_formed(),
            old(self)@.next_sequence < u64::MAX,
        ensures
            final(self).well_formed(),
            final(self)@.slots == old(self)@.slots.insert(
                source,
                SlotView { stack: seq![identity], sequence: old(self)@.next_sequence, notice },
            ),
            final(self)@.next_identity == old(self)@.next_identity,
            final(self)@.next_sequence == old(self)@.next_sequence + 1,
    {
        let sequence = self.allocate_sequence();
        let slot = NoticeSlot { identity, sequence, notice, suspended: None };
        proof {
            slot.lemma_stack();
        }
        self.install(source, Some(slot));
        proof {
            lemma_source_index(source, source);
        }
    }

    /// Opens a pending owner `identity` on top of the source's slot. The slot
    /// keeps showing what it showed; an empty slot shows nothing under a
    /// fresh sequence.
    pub fn begin_pending(&mut self, source: NoticeSource, identity: u64)
        requires
            old(self).well_formed(),
            old(self)@.next_sequence < u64::MAX,
        ensures
            final(self).well_formed(),
            final(self)@ == after_begin_pending(old(self)@, source, identity),
    {
        let index = slot_index(source);
        proof {
            lemma_source_index(source, source);
        }
        let suspended = self.take_slot(index);
        let slot = match suspended {
            Some(below) => {
                let sequence = below.sequence;
                let notice = clone_notice(&below.notice);
                proof {
                    below.lemma_stack();
                }
                NoticeSlot {
                    identity: NoticeIdentity::External(identity),
                    sequence,
                    notice,
                    suspended: Some(Box::new(below)),
                }
            },
            None => {
                let sequence = self.allocate_sequence();
                NoticeSlot {
                    identity: NoticeIdentity::External(identity),
                    sequence,
                    notice: None,
                    suspended: None,
                }
            },
        };
        proof {
            slot.lemma_stack();
        }
        self.install(source, Some(slot));
        proof {
            old(self).lemma_view_at(source);
            let expected = after_begin_pending(old(self)@, source, identity);
            assert(self@.next_identity == expected.next_identity);
            assert(self@.next_sequence == expected.next_sequence);
            assert(self@.slots =~= expected.slots);
        }
    }

    /// Withdraws the pending owner `identity` when it is the newest owner of
    /// the source's slot, restoring the owner below it.
    pub fn cancel(&mut self, source: NoticeSource, identity: u64) -> (canceled: bool)
        requires
            old(self).well_formed(),
        ensures
            final(self).well_formed(),
            canceled == cancels(old(self)@, source, identity),
            final(self)@ == after_cancel(old(self)@, source, identity),
    {
        let identity = NoticeIdentity::External(identity);
        let index = slot_index(source);
        proof {
            lemma_source_index(source, source);
            old(self).lemma_view_at(source);
        }
        let matches = match &self.slots[index] {
            Some(slot) => {
                proof {
                    slot.lemma_stack();
                }
                slot.identity == identity
            },
            None => false,
        };
        if !matches {
            return false;
        }
        let slot = self.take_slot(index).unwrap();
        proof {
            slot.lemma_stack();
        }
        match slot.suspended {
            Some(below) => {
                proof {
                    below.lemma_stack();
                }
                self.install(source, Some(*below));
            },
            None => {
                self.install(source, None);
            },
        }
        proof {
            let expected = after_cancel(old(self)@, source, identity->External_0);
            assert(self@.slots =~= expected.slots);
        }
        true
    }

    /// Completes the outside request `identity` on the source's slot when it
    /// still owns part of it, showing `notice` (or nothing) in its place.
    pub fn complete(&mut self, source: NoticeSource, identity: u64, notice: Option<Notice>) -> (completed: bool)
        requires
            old(self).well_formed(),
            old(self)@.next_sequence < u64::MAX,
        ensures
            final(self).well_formed(),
            completed == completes(old(self)@, source, identity),
            final(self)@ == after_complete(old(self)@, source, identity, notice),
    {
        let identity = NoticeIdentity::External(identity);
        let index = slot_index(source);
        proof {
            lemma_source_index(source, source);
            old(self).lemma_view_at(source);
        }
        let contains = match &self.slots[index] {
            Some(slot) => slot.contains_identity(identity),
            None => false,
        };
        if !contains {
            return false;
        }
        let sequence = self.allocate_sequence();
        let mut slot = self.take_slot(index).unwrap();
        let ghost original = slot;
        proof {
            original.lemma_stack();
            lemma_first_index(original.stack(), identity);
        }
        if slot.identity == identity {
            proof {
                assert(first_index(original.stack(), identity) == 0);
            }
            match notice {
                Some(n) => {
                    let fresh = NoticeSlot {
                        identity,
                        sequence,
                        notice: Some(n),
                        suspended: None,
                    };
                    proof {
                        fresh.lemma_stack();
                        assert(fresh.stack() =~= original.stack().take(1));
                    }
                    self.install(source, Some(fresh));
                },
                None => {
                    self.install(source, None);
                },
            }
            proof {
                let expected = after_complete(old(self)@, source, identity->External_0, notice);
                assert(self@.slots =~= expected.slots);
            }
            return true;
        }
        proof {
            lemma_first_index_skip(original.stack(), identity);
        }
        let completed = slot.complete_suspended(identity, notice, sequence);
        proof {
            slot.lemma_stack();
        }
        self.install(source, Some(slot));
        proof {
            let expected = after_complete(old(self)@, source, identity->External_0, notice);
            assert(self@.slots =~= expected.slots);
        }
        completed
    }

    /// Removes every owner of the source's slot.
    pub fn clear(&mut self, source: NoticeSource)
        requires
            old(self).well_formed(),
        ensures
            final(self).well_formed(),
            final(self)@ == after_clear(old(self)@, source),
    {
        proof {
            lemma_source_index(source, source);
        }
        self.install(source, None);
    }

    /// The notice to display: the shown notice of the highest level, the
    /// newest among those.
    pub fn current(&self) -> (current: Option<&Notice>)
        requires
            self.well_formed(),
        ensures
            current is Some <==> current_notice(self@) is Some,
            current matches Some(n) ==> current_notice(self@) == Some(*n),
    {
        let mut best: Option<usize> = None;
        let mut best_priority: u8 = 0;
        let mut best_sequence: u64 = 0;
        let mut i: usize = 0;
        while i < SOURCE_COUNT
            invariant
                self.well_formed(),
                i <= SOURCE_COUNT,
                best matches Some(b) ==> {
                    &&& b < i
                    &&& self.slots@[b as int] is Some
                    &&& self.slots@[b as int].unwrap().notice is Some
                    &&& best_priority == priority_of(
                        self.slots@[b as int].unwrap().notice.unwrap()@.level,
                    )
                    &&& best_sequence == self.slots@[b as int].unwrap().sequence
                },
                forall|j: int|
                    0 <= j < i && (#[trigger] self.slots@[j]) is Some
                        && self.slots@[j].unwrap().notice is Some ==> {
                        &&& best is Some
                        &&& ({
                            let p = priority_of(self.slots@[j].unwrap().notice.unwrap()@.level);
                            p < best_priority || (p == best_priority
                                && self.slots@[j].unwrap().sequence <= best_sequence)
                        })
                    },
            decreases SOURCE_COUNT - i,
        {
            match &self.slots[i] {
                Some(slot) => {
                    match &slot.notice {
                        Some(notice) => {
                            let priority = notice_priority(notice.level);
                            let better = match best {
                                None => true,
                                Some(_) => priority > best_priority || (priority == best_priority
                                    && slot.sequence >= best_sequence),
                            };
                            if better {
                                best = Some(i);
                                best_priority = priority;
                                best_sequence = slot.sequence;
                            }
                        },
                        None => {},
                    }
                },
                None => {},
            }
            i = i + 1;
        }
        proof {
            self.lemma_current(best, best_priority, best_sequence);
        }
        match best {
            Some(b) => match &self.slots[b] {
                Some(slot) => slot.notice.as_ref(),
                None => None,
            },
            None => None,
        }
    }

    proof fn lemma_current(&self, best: Option<usize>, best_priority: u8, best_sequence: u64)
        requires
            self.well_formed(),
            best matches Some(b) ==> {
                &&& b < SOURCE_COUNT
                &&& self.slots@[b as int] is Some
                &&& self.slots@[b as int].unwrap().notice is Some
                &&& best_priority == priority_of(
                    self.slots@[b as int].unwrap().notice.unwrap()@.level,
                )
                &&& best_sequence == self.slots@[b as int].unwrap().sequence
            },
            forall|j: int|
                0 <= j < SOURCE_COUNT && (#[trigger] self.slots@[j]) is Some
                    && self.slots@[j].unwrap().notice is Some ==> {
                    &&& best is Some
                    &&& ({
                        let p = priority_of(self.slots@[j].unwrap().notice.unwrap()@.level);
                        p < best_priority || (p == best_priority && self.slots@[j].unwrap().sequence
                            <= best_sequence)
                    })
                },
        ensures
            best is Some <==> current_notice(self@) is Some,
            best matches Some(b) ==> current_notice(self@) == self.slots@[b as int].unwrap().notice,
    {
        let v = self@;
        match best {
            Some(b) => {
                let s = index_source(b as int);
                lemma_index_source(b as int);
                assert(is_current_source(v, s)) by {
                    assert forall|other: NoticeSource|
                        #![trigger v.slots[other]]
                        v.slots.contains_key(other) && v.slots[other].notice is Some
                            implies outranked_by(v.slots[other], v.slots[s]) by {
                        lemma_source_index(other, s);
                        let j = source_index(other);
                        assert(self.slots@[j] is Some);
                    }
                }
                let c = choose|c: NoticeSource| is_current_source(v, c);
                assert(c == s) by {
                    lemma_source_index(c, s);
                    let jc = source_index(c);
                    assert(self.slots@[jc] is Some);
                    assert(outranked_by(v.slots[c], v.slots[s]));
                    assert(outranked_by(v.slots[s], v.slots[c]));
                }
            },
            None => {
                assert forall|s: NoticeSource| !is_current_source(v, s) by {
                    lemma_source_index(s, s);
                    let j = source_index(s);
                    if v.slots.contains_key(s) && v.slots[s].notice is Some {
                        assert(self.slots@[j] is Some);
                    }
                }
            },
        }
    }
}

impl Default for NoticeCenter {
    fn default() -> (center: Self)
        ensures
            center.well_formed(),
            center@.slots == Map::<NoticeSource, SlotView>::empty(),
            center@.next_identity == 0,
            center@.next_sequence == 0,
    {
        NoticeCenter::new()
    }
}

/// The source whose slot sits at `index`.
pub open spec fn index_source(index: int) -> NoticeSource {
    if index == 0 {
        NoticeSource::Workspace
    } else if index == 1 {
        NoticeSource::Editor
    } else if index == 2 {
        NoticeSource::Startup
    } else if index == 3 {
        NoticeSource::SettingsWrite
    } else if index == 4 {
        NoticeSource::Open
    } else if index == 5 {
        NoticeSource::Browse(Game::Crusaders)
    } else if index == 6 {
        NoticeSource::Browse(Game::Heroes)
    } else if index == 7 {
        NoticeSource::Discovery
    } else if index == 8 {
        NoticeSource::Catalog
    } else {
        NoticeSource::Mods
    }
}

proof fn lemma_index_source(index: int)
    requires
        0 <= index < SOURCE_COUNT,
    ensures
        source_index(index_source(index)) == index,
{
}

/// The priority of a level as a number, higher for more urgent levels.
pub fn notice_priority(level: NoticeLevel) -> (priority: u8)
    ensures
        priority as int == priority_of(level),
{
    match level {
        NoticeLevel::Info => 0,
        NoticeLevel::Success => 1,
        NoticeLevel::Warning => 2,
        NoticeLevel::Error => 3,
    }
}

/// One operation of the notice center on a source slot.
pub enum NoticeOperation {
    Replace(Notice),
    Begin(u64, Notice),
    BeginPending(u64),
    Cancel(u64),
    Complete(u64, Option<Notice>),
    Clear,
}

/// The center after `operation` on `source`.
pub open spec fn after_operation(
    v: NoticeCenterView,
    source: NoticeSource,
    operation: NoticeOperation,
) -> NoticeCenterView {
    match operation {
        NoticeOperation::Replace(notice) => after_replace(v, source, notice),
        NoticeOperation::Begin(identity, notice) => after_begin(v, source, identity, notice),
        NoticeOperation::BeginPending(identity) => after_begin_pending(v, source, identity),
        NoticeOperation::Cancel(identity) => after_cancel(v, source, identity),
        NoticeOperation::Complete(identity, notice) => after_complete(
            v,
            source,
            identity,
            notice,
        ),
        NoticeOperation::Clear => after_clear(v, source),
    }
}

/// Sources are independent: an operation on one source's slot leaves the
/// slot of every other source exactly as it was.
pub proof fn law_sources_are_independent(
    v: NoticeCenterView,
    source: NoticeSource,
    operation: NoticeOperation,
    other: NoticeSource,
)
    requires
        other != source,
    ensures
        after_operation(v, source, operation).slots.contains_key(other) == v.slots.contains_key(
            other,
        ),
        v.slots.contains_key(other) ==> after_operation(v, source, operation).slots[other]
            == v.slots[other],
{
}

/// A completion from an outside request never clears a notice that the
/// center posted itself in its place.
pub proof fn law_stale_completion_keeps_local_replacement(
    v: NoticeCenterView,
    source: NoticeSource,
    notice: Notice,
    identity: u64,
    completion: Option<Notice>,
)
    ensures
        !completes(after_replace(v, source, notice), source, identity),
        after_complete(after_replace(v, source, notice), source, identity, completion)
            == after_replace(v, source, notice),
{
    let w = after_replace(v, source, notice);
    assert(w.slots[source].stack =~= seq![NoticeIdentity::Local(v.next_identity)]);
}

/// Only the newest outside request that began on a slot can complete it: a
/// request that a newer one superseded is stale.
pub proof fn law_superseded_request_cannot_complete(
    v: NoticeCenterView,
    source: NoticeSource,
    first: u64,
    first_notice: Notice,
    second: u64,
    second_notice: Notice,
)
    requires
        first != second,
    ensures
        ({
            let w = after_begin(after_begin(v, source, first, first_notice), source, second, second_notice);
            &&& !completes(w, source, first)
            &&& completes(w, source, second)
        }),
{
    let w = after_begin(after_begin(v, source, first, first_notice), source, second, second_notice);
    assert(w.slots[source].stack[0] == NoticeIdentity::External(second));
}

/// Canceling a pending request right after it began restores the slot that
/// it suspended, with everything the slot showed.
pub proof fn law_cancel_restores_the_suspended_slot(
    v: NoticeCenterView,
    source: NoticeSource,
    identity: u64,
)
    requires
        center_view_well_formed(v),
    ensures
        cancels(after_begin_pending(v, source, identity), source, identity),
        v.slots.contains_key(source) ==> after_cancel(
            after_begin_pending(v, source, identity),
            source,
            identity,
        ) == v,
        !v.slots.contains_key(source) ==> after_cancel(
            after_begin_pending(v, source, identity),
            source,
            identity,
        ).slots == v.slots,
{
    let w = after_begin_pending(v, source, identity);
    if v.slots.contains_key(source) {
        let previous = v.slots[source];
        assert(w.slots[source].stack.drop_first() =~= previous.stack);
        assert(SlotView { stack: w.slots[source].stack.drop_first(), ..w.slots[source] } == previous);
        assert(after_cancel(w, source, identity).slots =~= v.slots);
    } else {
        assert(after_cancel(w, source, identity).slots =~= v.slots);
    }
}

/// Canceling a request that is not the newest owner of the source's slot
/// is refused and changes nothing.
pub proof fn law_cancel_by_a_non_owner_changes_nothing(
    v: NoticeCenterView,
    source: NoticeSource,
    identity: u64,
)
    requires
        !(v.slots.contains_key(source) && v.slots[source].stack[0] == NoticeIdentity::External(
            identity,
        )),
    ensures
        !cancels(v, source, identity),
        after_cancel(v, source, identity) == v,
{
}

/// A pending request keeps its slot showing what it showed, and completing
/// it with a notice shows that notice as the newest in the center.
pub proof fn law_completion_shows_its_notice(
    v: NoticeCenterView,
    source: NoticeSource,
    identity: u64,
    notice: Notice,
)
    requires
        completes(v, source, identity),
    ensures
        ({
            let w = after_complete(v, source, identity, Some(notice));
            &&& w.slots.contains_key(source)
            &&& w.slots[source].notice == Some(notice)
            &&& w.slots[source].sequence == v.next_sequence
        }),
{
}

/// At most one source is current in a well-formed center.
pub proof fn law_current_source_is_unique(center: &NoticeCenter, a: NoticeSource, b: NoticeSource)
    requires
        center.well_formed(),
        is_current_source(center@, a),
        is_current_source(center@, b),
    ensures
        a == b,
{
    center.lemma_current_unique(a, b);
}

/// Levels rank strictly: an Info notice below a Success, below a Warning,
/// below an Error.
pub proof fn law_levels_rank_strictly()
    ensures
        priority_of(NoticeLevel::Info) < priority_of(NoticeLevel::Success),
        priority_of(NoticeLevel::Success) < priority_of(NoticeLevel::Warning),
        priority_of(NoticeLevel::Warning) < priority_of(NoticeLevel::Error),
{
}

/// Whenever a well-formed center shows a notice it has a current one, and
/// the current notice is at least as urgent as every shown notice, whatever
/// their sequence: a shown Error makes the current notice an Error, a shown
/// Warning makes it a Warning or an Error, and a shown Success keeps an Info
/// from being current. Among notices of the current level, the current one
/// is the newest.
pub proof fn law_most_urgent_notice_is_current(center: &NoticeCenter, source: NoticeSource)
    requires
        center.well_formed(),
        center@.slots.contains_key(source),
        center@.slots[source].notice is Some,
    ensures
        current_notice(center@) is Some,
        ({
            let shown = center@.slots[source].notice.unwrap()@.level;
            let current = current_notice(center@).unwrap()@.level;
            &&& shown == NoticeLevel::Error ==> current == NoticeLevel::Error
            &&& shown == NoticeLevel::Warning ==> (current == NoticeLevel::Warning || current
                == NoticeLevel::Error)
            &&& shown == NoticeLevel::Success ==> current != NoticeLevel::Info
        }),
        forall|c: NoticeSource|
            is_current_source(center@, c) && center@.slots[c].notice.unwrap()@.level
                == center@.slots[source].notice.unwrap()@.level ==> center@.slots[source].sequence
                <= center@.slots[c].sequence,
{
    let v = center@;
    let best = center.lemma_best_below(SOURCE_COUNT as int);
    lemma_source_index(source, source);
    assert(center.slots@[source_index(source)] is Some);
    let b = best.unwrap();
    let slot = center.slots@[b].unwrap();
    center.lemma_current(
        Some(b as usize),
        priority_of(slot.notice.unwrap()@.level) as u8,
        slot.sequence,
    );
    let c = choose|c: NoticeSource| is_current_source(v, c);
    assert(is_current_source(v, c));
    assert(outranked_by(v.slots[source], v.slots[c]));
    assert(current_notice(v) == v.slots[c].notice);
}

impl NoticeCenter {
    /// The most urgent, then newest, shown notice among the first `k` slots.
    proof fn lemma_best_below(&self, k: int) -> (best: Option<int>)
        requires
            self.well_formed(),
            0 <= k <= SOURCE_COUNT,
        ensures
            best matches Some(b) ==> {
                &&& 0 <= b < k
                &&& self.slots@[b] is Some
                &&& self.slots@[b].unwrap().notice is Some
            },
            forall|j: int|
                0 <= j < k && (#[trigger] self.slots@[j]) is Some
                    && self.slots@[j].unwrap().notice is Some ==> {
                    &&& best is Some
                    &&& ({
                        let p = priority_of(self.slots@[j].unwrap().notice.unwrap()@.level);
                        let q = priority_of(
                            self.slots@[best.unwrap()].unwrap().notice.unwrap()@.level,
                        );
                        p < q || (p == q && self.slots@[j].unwrap().sequence
                            <= self.slots@[best.unwrap()].unwrap().sequence)
                    })
                },
        decreases k,
    {
        if k == 0 {
            None
        } else {
            let previous = self.lemma_best_below(k - 1);
            let j = k - 1;
            if self.slots@[j] is Some && self.slots@[j].unwrap().notice is Some {
                match previous {
                    None => Some(j),
                    Some(b) => {
                        let pj = priority_of(self.slots@[j].unwrap().notice.unwrap()@.level);
                        let pb = priority_of(self.slots@[b].unwrap().notice.unwrap()@.level);
                        if pj > pb || (pj == pb && self.slots@[j].unwrap().sequence
                            >= self.slots@[b].unwrap().sequence) {
                            Some(j)
                        } else {
                            Some(b)
                        }
                    },
                }
            } else {
                previous
            }
        }
    }
}

impl NoticeCenter {
    proof fn lemma_current_unique(&self, a: NoticeSource, b: NoticeSource)
        requires
            self.well_formed(),
            is_current_source(self@, a),
            is_current_source(self@, b),
        ensures
            a == b,
    {
        let v = self@;
        lemma_source_index(a, b);
        let ia = source_index(a);
        let ib = source_index(b);
        assert(self.slots@[ia] is Some);
        assert(self.slots@[ib] is Some);
        assert(outranked_by(v.slots[a], v.slots[b]));
        assert(outranked_by(v.slots[b], v.slots[a]));
    }
}

} // verus!
