//! The decisions the Mods pane makes around its operations: which listing an
//! operation refreshes, how form text and export file names are cleaned, and
//! how a running operation numbers its progress reports.

use vstd::prelude::*;
use vstd::string::*;

use crate::integer_text::push_char;
use crate::mod_status::{
    ModOperationKind, ModProgress, ModProgressPhase, ModProgressSnapshot, phase_allows_cancel,
    progress_is_stale, progress_phase_allows_cancel,
};

verus! {

/// Whether the character `c`, outside ASCII, is alphabetic or numeric in
/// Unicode.
pub uninterp spec fn unicode_alphanumeric(c: char) -> bool;

/// Whether `c` is an ASCII character.
pub open spec fn is_ascii_char(c: char) -> bool {
    (c as u32) < 128
}

/// Whether `c` has the Unicode `White_Space` property: the space and the
/// controls from tab to carriage return, next line, the no-break spaces,
/// the Ogham space mark, the spaces from en quad to hair space, the line and
/// paragraph separators, the medium mathematical space and the ideographic
/// space.
pub open spec fn white_space(c: char) -> bool {
    ||| c == ' '
    ||| ('\t' <= c && c <= '\r')
    ||| c == '\u{85}'
    ||| c == '\u{A0}'
    ||| c == '\u{1680}'
    ||| ('\u{2000}' <= c && c <= '\u{200A}')
    ||| c == '\u{2028}'
    ||| c == '\u{2029}'
    ||| c == '\u{202F}'
    ||| c == '\u{205F}'
    ||| c == '\u{3000}'
}

/// Whether `c` is alphanumeric: in ASCII exactly the letters and digits;
/// beyond ASCII the Unicode alphabetic and numeric characters.
pub open spec fn alphanumeric(c: char) -> bool {
    if is_ascii_char(c) {
        ('a' <= c && c <= 'z') || ('A' <= c && c <= 'Z') || ('0' <= c && c <= '9')
    } else {
        unicode_alphanumeric(c)
    }
}

/// Whether `c` is white space in the sense of `char::is_whitespace`.
fn is_white_space(c: char) -> (white: bool)
    ensures
        white == white_space(c),
{
    c == ' ' || ('\t' <= c && c <= '\r') || c == '\u{85}' || c == '\u{A0}' || c == '\u{1680}'
        || ('\u{2000}' <= c && c <= '\u{200A}') || c == '\u{2028}' || c == '\u{2029}' || c
        == '\u{202F}' || c == '\u{205F}' || c == '\u{3000}'
}

/// `char::is_alphanumeric`: true exactly for the characters that are
/// alphabetic or numeric in Unicode. Among ASCII characters these are the
/// letters and digits.
#[verifier::external_body]
fn is_alphanumeric(c: char) -> (is_alnum: bool)
    ensures
        is_alnum == (if is_ascii_char(c) {
            ('a' <= c && c <= 'z') || ('A' <= c && c <= 'Z') || ('0' <= c && c <= '9')
        } else {
            unicode_alphanumeric(c)
        }),
{
    c.is_alphanumeric()
}

/// The characters a trim removes from both ends.
#[derive(Clone, Copy, Debug, PartialEq, Eq, Structural)]
pub enum TrimSet {
    WhiteSpace,
    DashOrDot,
}

/// Whether `c` belongs to `set`.
pub open spec fn in_trim_set(set: TrimSet, c: char) -> bool {
    match set {
        TrimSet::WhiteSpace => white_space(c),
        TrimSet::DashOrDot => c == '-' || c == '.',
    }
}

fn trimmed_char(set: TrimSet, c: char) -> (trimmed: bool)
    ensures
        trimmed == in_trim_set(set, c),
{
    match set {
        TrimSet::WhiteSpace => is_white_space(c),
        TrimSet::DashOrDot => c == '-' || c == '.',
    }
}

/// `s` without its leading characters of `set`.
pub open spec fn trim_start(s: Seq<char>, set: TrimSet) -> Seq<char>
    decreases s.len(),
{
    if s.len() > 0 && in_trim_set(set, s[0]) {
        trim_start(s.drop_first(), set)
    } else {
        s
    }
}

/// `s` without its trailing characters of `set`.
pub open spec fn trim_end(s: Seq<char>, set: TrimSet) -> Seq<char>
    decreases s.len(),
{
    if s.len() > 0 && in_trim_set(set, s.last()) {
        trim_end(s.drop_last(), set)
    } else {
        s
    }
}

/// `s` without the characters of `set` at either end.
pub open spec fn trim(s: Seq<char>, set: TrimSet) -> Seq<char> {
    trim_end(trim_start(s, set), set)
}

proof fn lemma_trim_start(s: Seq<char>, set: TrimSet, i: int)
    requires
        0 <= i <= s.len(),
        forall|k: int| 0 <= k < i ==> in_trim_set(set, #[trigger] s[k]),
        i == s.len() || !in_trim_set(set, s[i]),
    ensures
        trim_start(s, set) == s.subrange(i, s.len() as int),
    decreases i,
{
    if i == 0 {
        assert(s.subrange(0, s.len() as int) =~= s);
    } else {
        let t = s.drop_first();
        assert forall|k: int| 0 <= k < i - 1 implies in_trim_set(set, #[trigger] t[k]) by {
            assert(t[k] == s[k + 1]);
        }
        lemma_trim_start(t, set, i - 1);
        assert(t.subrange(i - 1, t.len() as int) =~= s.subrange(i, s.len() as int));
    }
}

proof fn lemma_trim_end(s: Seq<char>, set: TrimSet, j: int)
    requires
        0 <= j <= s.len(),
        forall|k: int| j <= k < s.len() ==> in_trim_set(set, #[trigger] s[k]),
        j == 0 || !in_trim_set(set, s[j - 1]),
    ensures
        trim_end(s, set) == s.subrange(0, j),
    decreases s.len() - j,
{
    if j == s.len() {
        assert(s.subrange(0, j) =~= s);
    } else {
        let t = s.drop_last();
        assert forall|k: int| j <= k < t.len() implies in_trim_set(set, #[trigger] t[k]) by {
            assert(t[k] == s[k]);
        }
        lemma_trim_end(t, set, j);
        assert(t.subrange(0, j) =~= s.subrange(0, j));
    }
}

/// `value` without the characters of `set` at either end.
pub fn trim_text(value: &str, set: TrimSet) -> (trimmed: String)
    ensures
        trimmed@ == trim(value@, set),
{
    let len = value.unicode_len();
    let mut start: usize = 0;
    while start < len
        invariant
            len == value@.len(),
            start <= len,
            forall|k: int| 0 <= k < start ==> in_trim_set(set, #[trigger] value@[k]),
        ensures
            start <= len,
            forall|k: int| 0 <= k < start ==> in_trim_set(set, #[trigger] value@[k]),
            start == len || !in_trim_set(set, value@[start as int]),
        decreases len - start,
    {
        if !trimmed_char(set, value.get_char(start)) {
            break;
        }
        start = start + 1;
    }
    proof {
        lemma_trim_start(value@, set, start as int);
    }
    let ghost rest = value@.subrange(start as int, len as int);
    let mut end: usize = len;
    while end > start
        invariant
            len == value@.len(),
            start <= end <= len,
            rest == value@.subrange(start as int, len as int),
            forall|k: int| end - start <= k < rest.len() ==> in_trim_set(set, #[trigger] rest[k]),
        ensures
            start <= end <= len,
            forall|k: int| end - start <= k < rest.len() ==> in_trim_set(set, #[trigger] rest[k]),
            end == start || !in_trim_set(set, value@[end - 1]),
        decreases end - start,
    {
        if !trimmed_char(set, value.get_char(end - 1)) {
            break;
        }
        end = end - 1;
        assert(rest[end - start] == value@[end as int]);
    }
    proof {
        if end > start {
            assert(rest[end - start - 1] == value@[end - 1]);
        }
        lemma_trim_end(rest, set, end - start);
        assert(rest.subrange(0, end - start) =~= value@.subrange(start as int, end as int));
    }
    value.substring_char(start, end).to_owned()
}

/// Optional form text: the trimmed text, or nothing when only white space
/// was entered.
pub fn optional_mod_text(value: &str) -> (text: Option<String>)
    ensures
        match text {
            Some(t) => t@ == trim(value@, TrimSet::WhiteSpace) && t@.len() > 0,
            None => trim(value@, TrimSet::WhiteSpace).len() == 0,
        },
{
    let trimmed = trim_text(value, TrimSet::WhiteSpace);
    if trimmed.as_str().unicode_len() == 0 {
        None
    } else {
        Some(trimmed)
    }
}

/// A character kept in a package file name as it is.
pub open spec fn filename_safe(c: char) -> bool {
    alphanumeric(c) || c == '-' || c == '_' || c == '.'
}

/// Each character of `s` kept when safe and replaced by `-` otherwise.
pub open spec fn filename_characters(s: Seq<char>) -> Seq<char> {
    s.map_values(|c: char| if filename_safe(c) { c } else { '-' })
}

/// The file name a package is exported under: the trimmed name with unsafe
/// characters replaced by `-` and dashes and dots stripped from both ends,
/// or `package` when nothing is left.
pub open spec fn package_filename(name: Seq<char>) -> Seq<char> {
    let cleaned = trim(filename_characters(trim(name, TrimSet::WhiteSpace)), TrimSet::DashOrDot);
    if cleaned.len() == 0 {
        "package"@
    } else {
        cleaned
    }
}

/// The file name a package named `value` is exported under.
pub fn safe_package_filename(value: &str) -> (name: String)
    ensures
        name@ == package_filename(value@),
{
    let trimmed = trim_text(value, TrimSet::WhiteSpace);
    let len = trimmed.as_str().unicode_len();
    let mut mapped = String::new();
    let mut i: usize = 0;
    while i < len
        invariant
            len == trimmed@.len(),
            i <= len,
            mapped@ == filename_characters(trimmed@.take(i as int)),
        decreases len - i,
    {
        let c = trimmed.as_str().get_char(i);
        let safe = is_alphanumeric(c) || c == '-' || c == '_' || c == '.';
        let kept = if safe {
            c
        } else {
            '-'
        };
        push_char(&mut mapped, kept);
        assert(trimmed@.take(i + 1) =~= trimmed@.take(i as int).push(c));
        assert(filename_characters(trimmed@.take(i + 1)) =~= filename_characters(
            trimmed@.take(i as int),
        ).push(kept));
        i = i + 1;
    }
    assert(trimmed@.take(len as int) =~= trimmed@);
    let cleaned = trim_text(mapped.as_str(), TrimSet::DashOrDot);
    if cleaned.as_str().unicode_len() == 0 {
        proof {
            reveal_strlit("package");
        }
        "package".to_owned()
    } else {
        cleaned
    }
}

proof fn lemma_trim_start_suffix(s: Seq<char>, set: TrimSet) -> (k: int)
    ensures
        0 <= k <= s.len(),
        trim_start(s, set) == s.subrange(k, s.len() as int),
        trim_start(s, set).len() > 0 ==> !in_trim_set(set, trim_start(s, set)[0]),
    decreases s.len(),
{
    if s.len() > 0 && in_trim_set(set, s[0]) {
        let k = lemma_trim_start_suffix(s.drop_first(), set);
        assert(s.drop_first().subrange(k, s.drop_first().len() as int) =~= s.subrange(
            k + 1,
            s.len() as int,
        ));
        k + 1
    } else {
        assert(s.subrange(0, s.len() as int) =~= s);
        0
    }
}

proof fn lemma_trim_end_prefix(s: Seq<char>, set: TrimSet) -> (j: int)
    ensures
        0 <= j <= s.len(),
        trim_end(s, set) == s.subrange(0, j),
        trim_end(s, set).len() > 0 ==> !in_trim_set(set, trim_end(s, set).last()),
    decreases s.len(),
{
    if s.len() > 0 && in_trim_set(set, s.last()) {
        let j = lemma_trim_end_prefix(s.drop_last(), set);
        assert(s.drop_last().subrange(0, j) =~= s.subrange(0, j));
        j
    } else {
        assert(s.subrange(0, s.len() as int) =~= s);
        s.len() as int
    }
}

/// A trimmed text is a piece of the text: its characters are characters of
/// the text, and neither end is a character of the trimmed set.
proof fn lemma_trim_piece(s: Seq<char>, set: TrimSet) -> (k: int)
    ensures
        0 <= k,
        k + trim(s, set).len() <= s.len(),
        forall|i: int| 0 <= i < trim(s, set).len() ==> #[trigger] trim(s, set)[i] == s[k + i],
        trim(s, set).len() > 0 ==> !in_trim_set(set, trim(s, set)[0]) && !in_trim_set(
            set,
            trim(s, set).last(),
        ),
{
    let k = lemma_trim_start_suffix(s, set);
    let t = trim_start(s, set);
    let j = lemma_trim_end_prefix(t, set);
    assert forall|i: int| 0 <= i < trim(s, set).len() implies #[trigger] trim(s, set)[i] == s[k
        + i] by {
        assert(trim(s, set)[i] == t[i]);
    }
    if trim(s, set).len() > 0 {
        assert(trim(s, set)[0] == t[0]);
    }
    k
}

/// An export file name is never empty, holds only alphanumeric characters,
/// dashes, underscores and dots, and neither starts nor ends with a dash or
/// a dot.
pub proof fn law_package_filenames_are_safe(name: Seq<char>)
    ensures
        package_filename(name).len() > 0,
        forall|i: int|
            0 <= i < package_filename(name).len() ==> filename_safe(
                #[trigger] package_filename(name)[i],
            ),
        package_filename(name)[0] != '-' && package_filename(name)[0] != '.',
        package_filename(name).last() != '-' && package_filename(name).last() != '.',
{
    let mapped = filename_characters(trim(name, TrimSet::WhiteSpace));
    let cleaned = trim(mapped, TrimSet::DashOrDot);
    let k = lemma_trim_piece(mapped, TrimSet::DashOrDot);
    if cleaned.len() == 0 {
        reveal_strlit("package");
        let p = "package"@;
        assert forall|i: int| 0 <= i < p.len() implies filename_safe(#[trigger] p[i]) by {
            assert('a' <= p[i] && p[i] <= 'z');
        }
    } else {
        assert forall|i: int| 0 <= i < cleaned.len() implies filename_safe(#[trigger] cleaned[i]) by {
            assert(cleaned[i] == mapped[k + i]);
        }
    }
}

/// The listing an operation changes.
#[derive(Clone, Copy, Debug, PartialEq, Eq, Structural)]
pub enum ModRefreshScope {
    Library,
    Full,
}

/// The listing an operation of `kind` changes: package operations change
/// the library, the others also the game folder.
pub open spec fn refresh_scope_of(kind: ModOperationKind) -> ModRefreshScope {
    match kind {
        ModOperationKind::Import | ModOperationKind::Create | ModOperationKind::RemovePackage => {
            ModRefreshScope::Library
        },
        _ => ModRefreshScope::Full,
    }
}

/// The listing to refresh after an operation of `kind`.
pub fn refresh_scope(kind: ModOperationKind) -> (scope: ModRefreshScope)
    ensures
        scope == refresh_scope_of(kind),
{
    match kind {
        ModOperationKind::Import | ModOperationKind::Create | ModOperationKind::RemovePackage => {
            ModRefreshScope::Library
        },
        ModOperationKind::Apply
        | ModOperationKind::Uninstall
        | ModOperationKind::CreateBackup
        | ModOperationKind::RestoreBackup
        | ModOperationKind::DeleteBackup => ModRefreshScope::Full,
    }
}

/// `n + 1`, staying at the largest `u64`.
pub open spec fn saturating_next(n: u64) -> u64 {
    if n == u64::MAX {
        n
    } else {
        (n + 1) as u64
    }
}

/// How a running operation numbers its progress reports: every report gets
/// the next number, and every change of phase starts a new phase epoch.
#[derive(Clone, Copy, Debug)]
pub struct ProgressNumbering {
    sequence: u64,
    phase_epoch: u64,
    last_phase: Option<ModProgressPhase>,
}

/// The abstract [`ProgressNumbering`].
pub struct NumberingView {
    pub sequence: u64,
    pub phase_epoch: u64,
    pub last_phase: Option<ModProgressPhase>,
}

impl View for ProgressNumbering {
    type V = NumberingView;

    closed spec fn view(&self) -> NumberingView {
        NumberingView {
            sequence: self.sequence,
            phase_epoch: self.phase_epoch,
            last_phase: self.last_phase,
        }
    }
}

/// The numbering after a report in `phase`.
pub open spec fn after_report(n: NumberingView, phase: ModProgressPhase) -> NumberingView {
    NumberingView {
        sequence: saturating_next(n.sequence),
        phase_epoch: if n.last_phase == Some(phase) {
            n.phase_epoch
        } else {
            saturating_next(n.phase_epoch)
        },
        last_phase: Some(phase),
    }
}

impl ProgressNumbering {
    /// A numbering before the first report.
    pub fn new() -> (numbering: Self)
        ensures
            numbering@ == (NumberingView { sequence: 0, phase_epoch: 0, last_phase: None }),
    {
        ProgressNumbering { sequence: 0, phase_epoch: 0, last_phase: None }
    }

    /// Numbers a report in `phase`: returns its number and phase epoch.
    pub fn number(&mut self, phase: ModProgressPhase) -> (numbers: (u64, u64))
        ensures
            final(self)@ == after_report(old(self)@, phase),
            numbers == (final(self)@.sequence, final(self)@.phase_epoch),
    {
        self.sequence = self.sequence.saturating_add(1);
        let same_phase = match self.last_phase {
            Some(last) => last == phase,
            None => false,
        };
        if !same_phase {
            self.phase_epoch = self.phase_epoch.saturating_add(1);
            self.last_phase = Some(phase);
        }
        (self.sequence, self.phase_epoch)
    }
}

/// Whether the operation stops after a report in `phase`: cancellation was
/// requested and the phase still allows it.
pub fn stop_requested(cancellation: bool, phase: ModProgressPhase) -> (stop: bool)
    ensures
        stop == (cancellation && phase_allows_cancel(phase)),
{
    cancellation && progress_phase_allows_cancel(phase)
}

/// Two reports numbered one after the other are never taken for stale: the
/// pane accepts the later one over the earlier one, unless both are in the
/// same phase and the later one reports less completed work.
pub proof fn law_numbered_reports_are_fresh(
    n: NumberingView,
    first: ModProgress,
    second: ModProgress,
    shown: ModProgressSnapshot,
)
    requires
        n.sequence < u64::MAX - 1,
        n.phase_epoch < u64::MAX - 1,
        shown.sequence == after_report(n, first.phase).sequence,
        shown.phase_epoch == after_report(n, first.phase).phase_epoch,
        shown.phase == first.phase,
        shown.completed == first.completed,
        first.phase != second.phase || second.completed >= first.completed,
    ensures
        ({
            let later = after_report(after_report(n, first.phase), second.phase);
            !progress_is_stale(Some(shown), later.sequence, later.phase_epoch, second)
        }),
{
}

/// Operations on packages alone (import, create, remove) change only the
/// library; applying, uninstalling and every backup operation change the
/// game folder too, so everything is refreshed.
pub proof fn law_package_operations_refresh_only_the_library()
    ensures
        refresh_scope_of(ModOperationKind::Import) == ModRefreshScope::Library,
        refresh_scope_of(ModOperationKind::Create) == ModRefreshScope::Library,
        refresh_scope_of(ModOperationKind::RemovePackage) == ModRefreshScope::Library,
        refresh_scope_of(ModOperationKind::Apply) == ModRefreshScope::Full,
        refresh_scope_of(ModOperationKind::Uninstall) == ModRefreshScope::Full,
        refresh_scope_of(ModOperationKind::CreateBackup) == ModRefreshScope::Full,
        refresh_scope_of(ModOperationKind::RestoreBackup) == ModRefreshScope::Full,
        refresh_scope_of(ModOperationKind::DeleteBackup) == ModRefreshScope::Full,
{
}

} // verus!
