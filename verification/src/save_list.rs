//! The decisions of the save editor's lists and labels: where a keyboard
//! movement puts the cursor, how the view scrolls to it, which choice a
//! choice field cycles to, how presentation changes combine, and the texts
//! of its sections and selectors.

use vstd::prelude::*;
use vstd::string::*;

use crate::integer_text::{decimal_digits, push_char, unsigned_decimal_string};

verus! {

/// A keyboard movement in a save list.
#[derive(Clone, Copy, Debug, PartialEq, Eq, Structural)]
pub enum SaveListMovement {
    Up,
    Down,
    Home,
    End,
    PageUp,
    PageDown,
    Left,
    Right,
}

/// Where a moved-to row is placed in the view.
#[derive(Clone, Copy, Debug, PartialEq, Eq, Structural)]
pub enum ScrollAnchor {
    Top,
    Bottom,
    Center,
}

/// The last position of a list of `len` rows, or 0 for an empty list.
pub open spec fn last_position(len: nat) -> nat {
    if len == 0 {
        0
    } else {
        (len - 1) as nat
    }
}

/// `a - b`, or 0 when `b` is larger.
pub open spec fn minus_or_zero(a: nat, b: nat) -> nat {
    if a >= b {
        (a - b) as nat
    } else {
        0
    }
}

/// `a + b`, but never past `limit`.
pub open spec fn plus_at_most(a: nat, b: nat, limit: nat) -> nat {
    if a + b <= limit {
        a + b
    } else {
        limit
    }
}

/// The position a movement leads to from `current` in a list of `len`
/// rows with pages of `page` rows: one row or one page up or down, to
/// either end, and nowhere for a sideways movement.
pub open spec fn moved_position(movement: SaveListMovement, current: nat, len: nat, page: nat) -> nat {
    match movement {
        SaveListMovement::Up => minus_or_zero(current, 1),
        SaveListMovement::Down => plus_at_most(current, 1, last_position(len)),
        SaveListMovement::Home => 0,
        SaveListMovement::End => last_position(len),
        SaveListMovement::PageUp => minus_or_zero(current, page),
        SaveListMovement::PageDown => plus_at_most(current, page, last_position(len)),
        SaveListMovement::Left | SaveListMovement::Right => current,
    }
}

/// The position `movement` leads to from `current` in a list of `len` rows
/// with pages of `page` rows.
pub fn move_position(movement: SaveListMovement, current: usize, len: usize, page: usize) -> (position: usize)
    requires
        current < len,
    ensures
        position == moved_position(movement, current as nat, len as nat, page as nat),
{
    let last = len - 1;
    match movement {
        SaveListMovement::Up => current.saturating_sub(1),
        SaveListMovement::Down => {
            let next = current.saturating_add(1);
            if next < last {
                next
            } else {
                last
            }
        },
        SaveListMovement::Home => 0,
        SaveListMovement::End => last,
        SaveListMovement::PageUp => current.saturating_sub(page),
        SaveListMovement::PageDown => {
            let next = current.saturating_add(page);
            if next < last {
                next
            } else {
                last
            }
        },
        SaveListMovement::Left | SaveListMovement::Right => current,
    }
}

/// Where the view places the row a movement leads to: upward movements at
/// the top, downward ones at the bottom, sideways ones in the middle.
pub open spec fn anchor_of(movement: SaveListMovement) -> ScrollAnchor {
    match movement {
        SaveListMovement::Up | SaveListMovement::Home | SaveListMovement::PageUp => ScrollAnchor::Top,
        SaveListMovement::Down | SaveListMovement::End | SaveListMovement::PageDown => {
            ScrollAnchor::Bottom
        },
        SaveListMovement::Left | SaveListMovement::Right => ScrollAnchor::Center,
    }
}

/// Where the view places the row `movement` leads to.
pub fn scroll_anchor(movement: SaveListMovement) -> (anchor: ScrollAnchor)
    ensures
        anchor == anchor_of(movement),
{
    match movement {
        SaveListMovement::Up | SaveListMovement::Home | SaveListMovement::PageUp => ScrollAnchor::Top,
        SaveListMovement::Down | SaveListMovement::End | SaveListMovement::PageDown => {
            ScrollAnchor::Bottom
        },
        SaveListMovement::Left | SaveListMovement::Right => ScrollAnchor::Center,
    }
}

/// Every movement keeps the cursor inside a non-empty list.
pub proof fn law_movements_stay_in_the_list(
    movement: SaveListMovement,
    current: nat,
    len: nat,
    page: nat,
)
    requires
        current < len,
    ensures
        moved_position(movement, current, len, page) < len,
{
}

/// What each movement does in a non-empty list: Up moves one row toward
/// the top and Down one row toward the bottom, PageUp and PageDown a page,
/// each stopping at the first or last row; Home goes to the first row, End
/// to the last, and sideways movements stay put.
pub proof fn law_movements_move_as_named(current: nat, len: nat, page: nat)
    requires
        current < len,
    ensures
        current > 0 ==> moved_position(SaveListMovement::Up, current, len, page) == current - 1,
        current == 0 ==> moved_position(SaveListMovement::Up, current, len, page) == 0,
        current + 1 < len ==> moved_position(SaveListMovement::Down, current, len, page) == current
            + 1,
        current + 1 == len ==> moved_position(SaveListMovement::Down, current, len, page)
            == current,
        moved_position(SaveListMovement::Home, current, len, page) == 0,
        moved_position(SaveListMovement::End, current, len, page) == len - 1,
        current >= page ==> moved_position(SaveListMovement::PageUp, current, len, page) == current
            - page,
        current < page ==> moved_position(SaveListMovement::PageUp, current, len, page) == 0,
        current + page < len ==> moved_position(SaveListMovement::PageDown, current, len, page)
            == current + page,
        current + page >= len ==> moved_position(SaveListMovement::PageDown, current, len, page)
            == len - 1,
        moved_position(SaveListMovement::Left, current, len, page) == current,
        moved_position(SaveListMovement::Right, current, len, page) == current,
{
}

/// Upward movements and Home show their row at the top of the view,
/// downward movements and End at the bottom, sideways ones in the middle.
pub proof fn law_anchors_follow_the_direction()
    ensures
        anchor_of(SaveListMovement::Up) == ScrollAnchor::Top,
        anchor_of(SaveListMovement::Home) == ScrollAnchor::Top,
        anchor_of(SaveListMovement::PageUp) == ScrollAnchor::Top,
        anchor_of(SaveListMovement::Down) == ScrollAnchor::Bottom,
        anchor_of(SaveListMovement::End) == ScrollAnchor::Bottom,
        anchor_of(SaveListMovement::PageDown) == ScrollAnchor::Bottom,
        anchor_of(SaveListMovement::Left) == ScrollAnchor::Center,
        anchor_of(SaveListMovement::Right) == ScrollAnchor::Center,
{
}

/// The neighbouring field of the field at `position` among `len` fields:
/// the next one forward or the previous one backward, staying at the ends.
pub open spec fn adjacent_field_position(position: nat, len: nat, forward: bool) -> nat {
    if forward {
        plus_at_most(position, 1, last_position(len))
    } else {
        minus_or_zero(position, 1)
    }
}

/// The position of the field next to the one at `position` among `len`
/// fields.
pub fn adjacent_position(position: usize, len: usize, forward: bool) -> (adjacent: usize)
    requires
        position < len,
    ensures
        adjacent == adjacent_field_position(position as nat, len as nat, forward),
        adjacent < len,
{
    if forward {
        let next = position.saturating_add(1);
        if next < len - 1 {
            next
        } else {
            len - 1
        }
    } else {
        position.saturating_sub(1)
    }
}

/// The choice a choice field moves to from `current`: the one after it,
/// wrapping to the first, or the first when `current` is not a choice.
pub open spec fn next_choice_spec(choices: Seq<i64>, current: i64) -> Option<i64> {
    if choices.len() == 0 {
        None
    } else {
        match choices.index_of_first(current) {
            Some(i) => Some(choices[(i + 1) % (choices.len() as int)]),
            None => Some(choices[0]),
        }
    }
}

/// The choice a choice field moves to from `current`.
pub fn next_choice(choices: &Vec<i64>, current: i64) -> (next: Option<i64>)
    ensures
        next == next_choice_spec(choices@, current),
{
    let len = choices.len();
    if len == 0 {
        return None;
    }
    let mut i: usize = 0;
    while i < len
        invariant
            len == choices@.len(),
            len > 0,
            i <= len,
            forall|k: int| 0 <= k < i ==> choices@[k] != current,
        decreases len - i,
    {
        if choices[i] == current {
            proof {
                assert(choices@.contains(current));
                choices@.index_of_first_ensures(current);
                assert(choices@.index_of_first(current) == Some(i as int));
            }
            let next_index = if i + 1 < len {
                i + 1
            } else {
                0
            };
            proof {
                if i + 1 < len {
                    vstd::arithmetic::div_mod::lemma_small_mod((i + 1) as nat, len as nat);
                } else {
                    vstd::arithmetic::div_mod::lemma_mod_self_0(len as int);
                }
            }
            return Some(choices[next_index]);
        }
        i = i + 1;
    }
    proof {
        choices@.index_of_first_ensures(current);
    }
    Some(choices[0])
}

/// Cycling a choice field always lands on one of its choices.
pub proof fn law_choices_cycle_within_the_field(choices: Seq<i64>, current: i64)
    requires
        choices.len() > 0,
    ensures
        next_choice_spec(choices, current) matches Some(v) && choices.contains(v),
{
    choices.index_of_first_ensures(current);
    match choices.index_of_first(current) {
        Some(i) => {
            let j = (i + 1) % (choices.len() as int);
            vstd::arithmetic::div_mod::lemma_mod_bound(i + 1, choices.len() as int);
            assert(choices.contains(choices[j]));
        },
        None => {
            assert(choices.contains(choices[0]));
        },
    }
}

/// How a change to the save presentation affects the view and an open
/// draft edit.
#[derive(Clone, Copy, Debug, PartialEq, Eq, Structural)]
pub enum SavePresentationTransition {
    Unchanged,
    Changed,
    ChangedAndCancelDraft,
}

impl SavePresentationTransition {
    /// Whether the view changed.
    pub fn changed(self) -> (changed: bool)
        ensures
            changed == (self != SavePresentationTransition::Unchanged),
    {
        self != SavePresentationTransition::Unchanged
    }

    /// Whether the open draft edit must be canceled.
    pub fn cancels_draft(self) -> (cancels: bool)
        ensures
            cancels == (self == SavePresentationTransition::ChangedAndCancelDraft),
    {
        self == SavePresentationTransition::ChangedAndCancelDraft
    }
}

/// The effect of two changes made one after the other: the stronger one.
pub open spec fn merged(
    first: SavePresentationTransition,
    second: SavePresentationTransition,
) -> SavePresentationTransition {
    if first == SavePresentationTransition::ChangedAndCancelDraft || second
        == SavePresentationTransition::ChangedAndCancelDraft {
        SavePresentationTransition::ChangedAndCancelDraft
    } else if first == SavePresentationTransition::Changed || second
        == SavePresentationTransition::Changed {
        SavePresentationTransition::Changed
    } else {
        SavePresentationTransition::Unchanged
    }
}

/// The effect of `first` followed by `second`.
pub fn merge_save_presentation_transition(
    first: SavePresentationTransition,
    second: SavePresentationTransition,
) -> (merged_transition: SavePresentationTransition)
    ensures
        merged_transition == merged(first, second),
{
    if first.cancels_draft() || second.cancels_draft() {
        SavePresentationTransition::ChangedAndCancelDraft
    } else if first.changed() || second.changed() {
        SavePresentationTransition::Changed
    } else {
        SavePresentationTransition::Unchanged
    }
}

/// The effect of activating a save document: switching to another
/// document always changes the view, and cancels an open draft edit.
pub open spec fn activation_effect(
    transition: SavePresentationTransition,
    document_changed: bool,
    draft_active: bool,
) -> SavePresentationTransition {
    if document_changed && transition == SavePresentationTransition::Unchanged {
        if draft_active {
            SavePresentationTransition::ChangedAndCancelDraft
        } else {
            SavePresentationTransition::Changed
        }
    } else {
        transition
    }
}

/// The effect of activating a save document, given the effect
/// `transition` of reconciling its presentation.
pub fn activation_transition(
    transition: SavePresentationTransition,
    document_changed: bool,
    draft_active: bool,
) -> (effect: SavePresentationTransition)
    ensures
        effect == activation_effect(transition, document_changed, draft_active),
{
    if document_changed && transition == SavePresentationTransition::Unchanged {
        if draft_active {
            SavePresentationTransition::ChangedAndCancelDraft
        } else {
            SavePresentationTransition::Changed
        }
    } else {
        transition
    }
}

/// Merging changes does not depend on their order or grouping, an
/// unchanged step adds nothing, and a canceled draft stays canceled.
pub proof fn law_merging_is_order_free(
    a: SavePresentationTransition,
    b: SavePresentationTransition,
    c: SavePresentationTransition,
)
    ensures
        merged(a, b) == merged(b, a),
        merged(merged(a, b), c) == merged(a, merged(b, c)),
        merged(a, SavePresentationTransition::Unchanged) == a,
        merged(a, a) == a,
        a == SavePresentationTransition::ChangedAndCancelDraft ==> merged(a, b) == a,
{
}

/// A section of the save editor.
#[derive(Clone, Copy, Debug, PartialEq, Eq, Structural)]
pub enum SaveSection {
    Summary,
    Units,
    Equipment,
    Roster,
    Missions,
}

/// The sections of the save editor in the order of its section rail.
pub fn save_sections() -> (sections: [SaveSection; 5])
    ensures
        sections@ == seq![
            SaveSection::Summary,
            SaveSection::Units,
            SaveSection::Equipment,
            SaveSection::Roster,
            SaveSection::Missions,
        ],
{
    let sections = [
        SaveSection::Summary,
        SaveSection::Units,
        SaveSection::Equipment,
        SaveSection::Roster,
        SaveSection::Missions,
    ];
    assert(sections@ =~= seq![
        SaveSection::Summary,
        SaveSection::Units,
        SaveSection::Equipment,
        SaveSection::Roster,
        SaveSection::Missions,
    ]);
    sections
}

/// The label of the filter that shows only the player's units.
pub const PLAYER_ONLY_FILTER_LABEL: &'static str = "Player only";

/// The label of a section: the units and roster sections carry their
/// counts.
pub open spec fn section_label(section: SaveSection, unit_count: nat, roster_count: nat) -> Seq<char> {
    match section {
        SaveSection::Summary => "Summary"@,
        SaveSection::Units => "Units · "@ + decimal_digits(unit_count),
        SaveSection::Equipment => "Equipment"@,
        SaveSection::Roster => "Roster · "@ + decimal_digits(roster_count),
        SaveSection::Missions => "Missions"@,
    }
}

/// The label of `section`.
pub fn save_section_label(section: SaveSection, unit_count: usize, roster_count: usize) -> (label: String)
    ensures
        label@ == section_label(section, unit_count as nat, roster_count as nat),
{
    match section {
        SaveSection::Summary => "Summary".to_owned(),
        SaveSection::Units => {
            let mut label = "Units · ".to_owned();
            let count = unsigned_decimal_string(unit_count as u64);
            label.append(count.as_str());
            label
        },
        SaveSection::Equipment => "Equipment".to_owned(),
        SaveSection::Roster => {
            let mut label = "Roster · ".to_owned();
            let count = unsigned_decimal_string(roster_count as u64);
            label.append(count.as_str());
            label
        },
        SaveSection::Missions => "Missions".to_owned(),
    }
}

/// The element id of a section's control.
pub open spec fn section_id(section: SaveSection) -> Seq<char> {
    match section {
        SaveSection::Summary => "save-section-summary"@,
        SaveSection::Units => "save-section-units"@,
        SaveSection::Equipment => "save-section-equipment"@,
        SaveSection::Roster => "save-section-roster"@,
        SaveSection::Missions => "save-section-missions"@,
    }
}

/// The element id of `section`'s control.
pub fn save_section_id(section: SaveSection) -> (id: &'static str)
    ensures
        id@ == section_id(section),
{
    match section {
        SaveSection::Summary => "save-section-summary",
        SaveSection::Units => "save-section-units",
        SaveSection::Equipment => "save-section-equipment",
        SaveSection::Roster => "save-section-roster",
        SaveSection::Missions => "save-section-missions",
    }
}

/// Whether `c` is an ASCII letter or digit.
pub open spec fn ascii_alphanumeric(c: char) -> bool {
    ('a' <= c <= 'z') || ('A' <= c <= 'Z') || ('0' <= c <= '9')
}

/// `c` with ASCII capitals made small.
pub open spec fn ascii_lower(c: char) -> char {
    if 'A' <= c <= 'Z' {
        ((c as u32) + 32) as char
    } else {
        c
    }
}

/// The slug built from `s` so far, and whether a separator is waiting: runs
/// of characters that are not ASCII letters or digits become one `-`
/// between words, and letters become small.
pub open spec fn slug_state(s: Seq<char>) -> (Seq<char>, bool)
    decreases s.len(),
{
    if s.len() == 0 {
        (Seq::empty(), false)
    } else {
        let (slug, separator) = slug_state(s.drop_last());
        let c = s.last();
        if ascii_alphanumeric(c) {
            let joined = if separator && slug.len() > 0 {
                slug.push('-')
            } else {
                slug
            };
            (joined.push(ascii_lower(c)), false)
        } else {
            (slug, true)
        }
    }
}

/// The selector slug of a label.
pub open spec fn slug(s: Seq<char>) -> Seq<char> {
    slug_state(s).0
}

fn lower_ascii(c: char) -> (lower: char)
    ensures
        lower == ascii_lower(c),
{
    if 'A' <= c && c <= 'Z' {
        let code: u8 = ((c as u32) + 32) as u8;
        code as char
    } else {
        c
    }
}

/// The selector slug of `label`.
pub fn selector_slug(label: &str) -> (slug_text: String)
    ensures
        slug_text@ == slug(label@),
{
    let len = label.unicode_len();
    let mut out = String::new();
    let mut separator = false;
    let mut i: usize = 0;
    while i < len
        invariant
            len == label@.len(),
            i <= len,
            (out@, separator) == slug_state(label@.take(i as int)),
        decreases len - i,
    {
        let c = label.get_char(i);
        assert(label@.take(i + 1).drop_last() =~= label@.take(i as int));
        if ('a' <= c && c <= 'z') || ('A' <= c && c <= 'Z') || ('0' <= c && c <= '9') {
            if separator && out.as_str().unicode_len() > 0 {
                push_char(&mut out, '-');
            }
            push_char(&mut out, lower_ascii(c));
            separator = false;
        } else {
            separator = true;
        }
        i = i + 1;
    }
    assert(label@.take(len as int) =~= label@);
    out
}

/// A slug holds only small ASCII letters, digits and single dashes between
/// them: it never starts or ends with a dash nor holds two in a row.
pub proof fn law_slugs_are_clean(s: Seq<char>)
    ensures
        forall|i: int|
            0 <= i < slug(s).len() ==> ('a' <= #[trigger] slug(s)[i] <= 'z') || ('0' <= slug(s)[i]
                <= '9') || slug(s)[i] == '-',
        slug(s).len() > 0 ==> slug(s)[0] != '-' && slug(s).last() != '-',
        forall|i: int| 0 <= i < slug(s).len() - 1 ==> !(#[trigger] slug(s)[i] == '-' && slug(s)[i + 1] == '-'),
    decreases s.len(),
{
    if s.len() > 0 {
        law_slugs_are_clean(s.drop_last());
    }
}

/// `Yes` or `No`.
pub fn yes_no(value: bool) -> (text: &'static str)
    ensures
        text@ == (if value {
            "Yes"@
        } else {
            "No"@
        }),
{
    if value {
        "Yes"
    } else {
        "No"
    }
}

/// The text shown for a value: the value, or a dash when it is empty.
pub fn empty_label(value: &str) -> (text: String)
    ensures
        text@ == (if value@.len() == 0 {
            "—"@
        } else {
            value@
        }),
{
    if value.unicode_len() == 0 {
        "—".to_owned()
    } else {
        value.to_owned()
    }
}

} // verus!
