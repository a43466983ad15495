//! The stable element selectors of the save editor's fields and choices,
//! and the list cursor moved to another row.

use vstd::prelude::*;
use vstd::string::*;

use crate::integer_text::{decimal, decimal_digits, decimal_string, push_char, unsigned_decimal_string};
use crate::save_list::{selector_slug, slug};

verus! {

/// An equipment slot of a save unit.
#[derive(Clone, Copy, Debug, PartialEq, Eq, Structural)]
pub enum SaveEquipmentSlot {
    LeaderWeapon,
    LeaderAccessory,
    LeaderArmor,
    TroopWeapon,
    TroopAccessory,
    TroopArmor,
}

/// The selector of an equipment slot's control, enabled or not.
pub open spec fn slot_selector(slot: SaveEquipmentSlot, enabled: bool) -> Seq<char> {
    let base = match slot {
        SaveEquipmentSlot::LeaderWeapon => "save-equipment-slot-leader-weapon"@,
        SaveEquipmentSlot::LeaderAccessory => "save-equipment-slot-leader-accessory"@,
        SaveEquipmentSlot::LeaderArmor => "save-equipment-slot-leader-armor"@,
        SaveEquipmentSlot::TroopWeapon => "save-equipment-slot-troop-weapon"@,
        SaveEquipmentSlot::TroopAccessory => "save-equipment-slot-troop-accessory"@,
        SaveEquipmentSlot::TroopArmor => "save-equipment-slot-troop-armor"@,
    };
    if enabled {
        base
    } else {
        base + "-disabled"@
    }
}

/// The selector of `slot`'s control.
pub fn equipment_slot_selector(slot: SaveEquipmentSlot, enabled: bool) -> (selector: &'static str)
    ensures
        selector@ == slot_selector(slot, enabled),
{
    proof {
        reveal_strlit("save-equipment-slot-leader-weapon");
        reveal_strlit("save-equipment-slot-leader-accessory");
        reveal_strlit("save-equipment-slot-leader-armor");
        reveal_strlit("save-equipment-slot-troop-weapon");
        reveal_strlit("save-equipment-slot-troop-accessory");
        reveal_strlit("save-equipment-slot-troop-armor");
        reveal_strlit("-disabled");
        reveal_strlit("save-equipment-slot-leader-weapon-disabled");
        reveal_strlit("save-equipment-slot-leader-accessory-disabled");
        reveal_strlit("save-equipment-slot-leader-armor-disabled");
        reveal_strlit("save-equipment-slot-troop-weapon-disabled");
        reveal_strlit("save-equipment-slot-troop-accessory-disabled");
        reveal_strlit("save-equipment-slot-troop-armor-disabled");
    }
    let selector = match (slot, enabled) {
        (SaveEquipmentSlot::LeaderWeapon, true) => "save-equipment-slot-leader-weapon",
        (SaveEquipmentSlot::LeaderAccessory, true) => "save-equipment-slot-leader-accessory",
        (SaveEquipmentSlot::LeaderArmor, true) => "save-equipment-slot-leader-armor",
        (SaveEquipmentSlot::TroopWeapon, true) => "save-equipment-slot-troop-weapon",
        (SaveEquipmentSlot::TroopAccessory, true) => "save-equipment-slot-troop-accessory",
        (SaveEquipmentSlot::TroopArmor, true) => "save-equipment-slot-troop-armor",
        (SaveEquipmentSlot::LeaderWeapon, false) => "save-equipment-slot-leader-weapon-disabled",
        (SaveEquipmentSlot::LeaderAccessory, false) => {
            "save-equipment-slot-leader-accessory-disabled"
        },
        (SaveEquipmentSlot::LeaderArmor, false) => "save-equipment-slot-leader-armor-disabled",
        (SaveEquipmentSlot::TroopWeapon, false) => "save-equipment-slot-troop-weapon-disabled",
        (SaveEquipmentSlot::TroopAccessory, false) => {
            "save-equipment-slot-troop-accessory-disabled"
        },
        (SaveEquipmentSlot::TroopArmor, false) => "save-equipment-slot-troop-armor-disabled",
    };
    assert(selector@ =~= slot_selector(slot, enabled));
    selector
}

/// A text field of a save.
#[derive(Clone, Copy, Debug, PartialEq, Eq, Structural)]
pub enum SaveTextField {
    MapName,
    SetFile,
    SkyEffects,
}

/// The selector of a text field's value.
pub open spec fn text_selector(field: SaveTextField) -> Seq<char> {
    match field {
        SaveTextField::MapName => "save-text-map-name"@,
        SaveTextField::SetFile => "save-text-set-file"@,
        SaveTextField::SkyEffects => "save-text-sky-effects"@,
    }
}

/// The selector of a text field's editor.
pub open spec fn text_editor_selector(field: SaveTextField) -> Seq<char> {
    match field {
        SaveTextField::MapName => "save-text-editor-map-name"@,
        SaveTextField::SetFile => "save-text-editor-set-file"@,
        SaveTextField::SkyEffects => "save-text-editor-sky-effects"@,
    }
}

/// The selector of `field`'s value.
pub fn save_text_selector(field: SaveTextField) -> (selector: &'static str)
    ensures
        selector@ == text_selector(field),
{
    match field {
        SaveTextField::MapName => "save-text-map-name",
        SaveTextField::SetFile => "save-text-set-file",
        SaveTextField::SkyEffects => "save-text-sky-effects",
    }
}

/// The selector of `field`'s editor.
pub fn save_text_editor_selector(field: SaveTextField) -> (selector: &'static str)
    ensures
        selector@ == text_editor_selector(field),
{
    match field {
        SaveTextField::MapName => "save-text-editor-map-name",
        SaveTextField::SetFile => "save-text-editor-set-file",
        SaveTextField::SkyEffects => "save-text-editor-sky-effects",
    }
}

/// A numeric field of a save, with the labels of the fields and slots it
/// names.
#[derive(Clone, Copy, Debug)]
pub enum SaveNumberTarget {
    CampaignIndex,
    Main { label: &'static str },
    SelectedUnit,
    Unit { unit: usize, label: &'static str },
    Equipment { unit: usize, slot_label: &'static str, label: &'static str },
    Roster { record: usize, label: &'static str },
    MissionCompletion { slot: usize },
    CurrentMissionIndex,
    SecondArray { record: usize },
}

/// `s` with every `0x`, read from the left, removed.
pub open spec fn without_hex_marks(s: Seq<char>) -> Seq<char>
    decreases s.len(),
{
    if s.len() == 0 {
        s
    } else if s.len() >= 2 && s[0] == '0' && s[1] == 'x' {
        without_hex_marks(s.skip(2))
    } else {
        seq![s[0]] + without_hex_marks(s.skip(1))
    }
}

fn remove_hex_marks(text: &str) -> (out: String)
    ensures
        out@ == without_hex_marks(text@),
{
    let len = text.unicode_len();
    let mut out = String::new();
    let mut i: usize = 0;
    assert(text@.skip(0) =~= text@);
    assert(out@ + without_hex_marks(text@) =~= without_hex_marks(text@));
    while i < len
        invariant
            len == text@.len(),
            i <= len,
            out@ + without_hex_marks(text@.skip(i as int)) == without_hex_marks(text@),
        decreases len - i,
    {
        let ghost rest = text@.skip(i as int);
        let c = text.get_char(i);
        if c == '0' && i + 1 < len && text.get_char(i + 1) == 'x' {
            assert(rest.skip(2) =~= text@.skip(i + 2));
            i = i + 2;
        } else {
            assert(rest.skip(1) =~= text@.skip(i + 1));
            assert(seq![c] + without_hex_marks(text@.skip(i + 1)) == without_hex_marks(rest));
            let ghost before = out@;
            push_char(&mut out, c);
            assert(out@ + without_hex_marks(text@.skip(i + 1)) =~= before + (seq![c]
                + without_hex_marks(text@.skip(i + 1))));
            i = i + 1;
        }
    }
    assert(text@.skip(len as int) =~= Seq::<char>::empty());
    assert(out@ + Seq::<char>::empty() =~= out@);
    out
}

/// The selector of a numeric field.
pub open spec fn number_selector(target: SaveNumberTarget) -> Seq<char> {
    match target {
        SaveNumberTarget::CampaignIndex => "save-number-campaign"@,
        SaveNumberTarget::Main { label } => "save-number-main-"@ + without_hex_marks(slug(label@)),
        SaveNumberTarget::SelectedUnit => "save-number-selected-unit-reference"@,
        SaveNumberTarget::Unit { unit, label } => "save-number-unit-"@ + decimal_digits(
            unit as nat,
        ) + "-"@ + slug(label@),
        SaveNumberTarget::Equipment { unit, slot_label, label } => "save-number-equipment-"@
            + decimal_digits(unit as nat) + "-"@ + slug(slot_label@) + "-"@ + slug(label@),
        SaveNumberTarget::Roster { record, label } => if record == 0 {
            "save-roster-field-"@ + slug(label@)
        } else {
            "save-roster-"@ + decimal_digits(record as nat) + "-field-"@ + slug(label@)
        },
        SaveNumberTarget::MissionCompletion { slot } => "save-mission-completion-"@
            + decimal_digits(slot as nat),
        SaveNumberTarget::CurrentMissionIndex => "save-number-current-mission-index"@,
        SaveNumberTarget::SecondArray { record } => "save-number-second-array-"@ + decimal_digits(
            record as nat,
        ),
    }
}

fn append_count(text: &mut String, n: usize)
    ensures
        final(text)@ == old(text)@ + decimal_digits(n as nat),
{
    let digits = unsigned_decimal_string(n as u64);
    text.append(digits.as_str());
}

fn append_slug(text: &mut String, label: &str)
    ensures
        final(text)@ == old(text)@ + slug(label@),
{
    let slug_text = selector_slug(label);
    text.append(slug_text.as_str());
}

/// The selector of `target`.
pub fn save_number_selector(target: SaveNumberTarget) -> (selector: String)
    ensures
        selector@ == number_selector(target),
{
    match target {
        SaveNumberTarget::CampaignIndex => "save-number-campaign".to_owned(),
        SaveNumberTarget::Main { label } => {
            let mut selector = "save-number-main-".to_owned();
            let slug_text = selector_slug(label);
            let cleaned = remove_hex_marks(slug_text.as_str());
            selector.append(cleaned.as_str());
            selector
        },
        SaveNumberTarget::SelectedUnit => "save-number-selected-unit-reference".to_owned(),
        SaveNumberTarget::Unit { unit, label } => {
            let mut selector = "save-number-unit-".to_owned();
            append_count(&mut selector, unit);
            selector.append("-");
            append_slug(&mut selector, label);
            selector
        },
        SaveNumberTarget::Equipment { unit, slot_label, label } => {
            let mut selector = "save-number-equipment-".to_owned();
            append_count(&mut selector, unit);
            selector.append("-");
            append_slug(&mut selector, slot_label);
            selector.append("-");
            append_slug(&mut selector, label);
            selector
        },
        SaveNumberTarget::Roster { record, label } => {
            if record == 0 {
                let mut selector = "save-roster-field-".to_owned();
                append_slug(&mut selector, label);
                selector
            } else {
                let mut selector = "save-roster-".to_owned();
                append_count(&mut selector, record);
                selector.append("-field-");
                append_slug(&mut selector, label);
                selector
            }
        },
        SaveNumberTarget::MissionCompletion { slot } => {
            let mut selector = "save-mission-completion-".to_owned();
            append_count(&mut selector, slot);
            selector
        },
        SaveNumberTarget::CurrentMissionIndex => "save-number-current-mission-index".to_owned(),
        SaveNumberTarget::SecondArray { record } => {
            let mut selector = "save-number-second-array-".to_owned();
            append_count(&mut selector, record);
            selector
        },
    }
}

/// The selector of the choice `value` of a numeric field.
pub open spec fn choice_selector(target: SaveNumberTarget, value: i64) -> Seq<char> {
    match target {
        SaveNumberTarget::CampaignIndex => "save-choice-campaign-"@ + decimal(value as int),
        _ => "save-choice:"@ + number_selector(target) + ":"@ + decimal(value as int),
    }
}

/// The selector of the choice `value` of `target`.
pub fn save_choice_selector(target: SaveNumberTarget, value: i64) -> (selector: String)
    ensures
        selector@ == choice_selector(target, value),
{
    let number = decimal_string(value);
    match target {
        SaveNumberTarget::CampaignIndex => {
            let mut selector = "save-choice-campaign-".to_owned();
            selector.append(number.as_str());
            selector
        },
        _ => {
            let mut selector = "save-choice:".to_owned();
            let field = save_number_selector(target);
            selector.append(field.as_str());
            selector.append(":");
            selector.append(number.as_str());
            selector
        },
    }
}

/// The selector of the entry for a value that is none of the choices.
pub open spec fn unknown_choice(target: SaveNumberTarget) -> Seq<char> {
    match target {
        SaveNumberTarget::CampaignIndex => "save-choice-current-unknown"@,
        _ => "save-choice-unknown:"@ + number_selector(target),
    }
}

/// The selector of `target`'s entry for a value that is none of its
/// choices.
pub fn unknown_choice_selector(target: SaveNumberTarget) -> (selector: String)
    ensures
        selector@ == unknown_choice(target),
{
    match target {
        SaveNumberTarget::CampaignIndex => "save-choice-current-unknown".to_owned(),
        _ => {
            let mut selector = "save-choice-unknown:".to_owned();
            let field = save_number_selector(target);
            selector.append(field.as_str());
            selector
        },
    }
}

/// The cursor of a save list: a unit, a field of a roster record, or a
/// record of the second array.
#[derive(Clone, Copy, Debug, PartialEq, Eq, Structural)]
pub enum SaveListCursor<F> {
    Unit { source_index: usize },
    Roster { record: usize, field: F },
    SecondArray { record: usize },
}

/// The cursor of the same kind at the row `source_index`; a roster cursor
/// moves to `roster_field` when one is given and keeps its field otherwise.
pub open spec fn cursor_at<F>(cursor: SaveListCursor<F>, source_index: usize, roster_field: Option<F>) -> SaveListCursor<F> {
    match cursor {
        SaveListCursor::Unit { .. } => SaveListCursor::Unit { source_index },
        SaveListCursor::Roster { field, .. } => SaveListCursor::Roster {
            record: source_index,
            field: match roster_field {
                Some(f) => f,
                None => field,
            },
        },
        SaveListCursor::SecondArray { .. } => SaveListCursor::SecondArray { record: source_index },
    }
}

/// `cursor` moved to the row `source_index`.
pub fn save_list_cursor_at<F: Copy>(cursor: SaveListCursor<F>, source_index: usize, roster_field: Option<F>) -> (moved: SaveListCursor<F>)
    ensures
        moved == cursor_at(cursor, source_index, roster_field),
{
    match cursor {
        SaveListCursor::Unit { .. } => SaveListCursor::Unit { source_index },
        SaveListCursor::Roster { field, .. } => SaveListCursor::Roster {
            record: source_index,
            field: match roster_field {
                Some(f) => f,
                None => field,
            },
        },
        SaveListCursor::SecondArray { .. } => SaveListCursor::SecondArray { record: source_index },
    }
}

} // verus!
