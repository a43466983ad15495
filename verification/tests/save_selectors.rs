use kufeditor::save_selectors::{
    equipment_slot_selector, save_choice_selector, save_list_cursor_at, save_number_selector,
    save_text_editor_selector, save_text_selector, unknown_choice_selector, SaveEquipmentSlot,
    SaveListCursor, SaveNumberTarget, SaveTextField,
};

#[test]
fn number_selectors_name_the_field_by_its_slugged_label() {
    assert_eq!(save_number_selector(SaveNumberTarget::CampaignIndex), "save-number-campaign");
    assert_eq!(
        save_number_selector(SaveNumberTarget::Main { label: "Gold 0x1C" }),
        "save-number-main-gold-1c"
    );
    assert_eq!(
        save_number_selector(SaveNumberTarget::Unit { unit: 4, label: "Leader Level" }),
        "save-number-unit-4-leader-level"
    );
    assert_eq!(
        save_number_selector(SaveNumberTarget::Equipment {
            unit: 2,
            slot_label: "Troop Weapon",
            label: "Item ID"
        }),
        "save-number-equipment-2-troop-weapon-item-id"
    );
    assert_eq!(
        save_number_selector(SaveNumberTarget::Roster { record: 0, label: "Job Type" }),
        "save-roster-field-job-type"
    );
    assert_eq!(
        save_number_selector(SaveNumberTarget::Roster { record: 3, label: "Job Type" }),
        "save-roster-3-field-job-type"
    );
    assert_eq!(
        save_number_selector(SaveNumberTarget::MissionCompletion { slot: 11 }),
        "save-mission-completion-11"
    );
    assert_eq!(
        save_number_selector(SaveNumberTarget::SecondArray { record: 7 }),
        "save-number-second-array-7"
    );
    assert_eq!(
        save_number_selector(SaveNumberTarget::SelectedUnit),
        "save-number-selected-unit-reference"
    );
    assert_eq!(
        save_number_selector(SaveNumberTarget::CurrentMissionIndex),
        "save-number-current-mission-index"
    );
}

#[test]
fn choice_selectors_add_the_value_to_the_field_selector() {
    assert_eq!(
        save_choice_selector(SaveNumberTarget::CampaignIndex, 2),
        "save-choice-campaign-2"
    );
    assert_eq!(
        save_choice_selector(SaveNumberTarget::SecondArray { record: 1 }, -5),
        "save-choice:save-number-second-array-1:-5"
    );
    assert_eq!(
        unknown_choice_selector(SaveNumberTarget::CampaignIndex),
        "save-choice-current-unknown"
    );
    assert_eq!(
        unknown_choice_selector(SaveNumberTarget::MissionCompletion { slot: 0 }),
        "save-choice-unknown:save-mission-completion-0"
    );
}

#[test]
fn slot_and_text_selectors_are_stable() {
    assert_eq!(
        equipment_slot_selector(SaveEquipmentSlot::LeaderArmor, true),
        "save-equipment-slot-leader-armor"
    );
    assert_eq!(
        equipment_slot_selector(SaveEquipmentSlot::TroopAccessory, false),
        "save-equipment-slot-troop-accessory-disabled"
    );
    assert_eq!(save_text_selector(SaveTextField::SetFile), "save-text-set-file");
    assert_eq!(
        save_text_editor_selector(SaveTextField::SkyEffects),
        "save-text-editor-sky-effects"
    );
}

#[test]
fn moved_cursors_keep_their_kind_and_roster_field() {
    let unit: SaveListCursor<u8> = SaveListCursor::Unit { source_index: 1 };
    assert_eq!(save_list_cursor_at(unit, 5, Some(2)), SaveListCursor::Unit { source_index: 5 });
    let roster: SaveListCursor<u8> = SaveListCursor::Roster { record: 0, field: 3 };
    assert_eq!(
        save_list_cursor_at(roster, 4, None),
        SaveListCursor::Roster { record: 4, field: 3 }
    );
    assert_eq!(
        save_list_cursor_at(roster, 4, Some(1)),
        SaveListCursor::Roster { record: 4, field: 1 }
    );
    let second: SaveListCursor<u8> = SaveListCursor::SecondArray { record: 0 };
    assert_eq!(save_list_cursor_at(second, 9, None), SaveListCursor::SecondArray { record: 9 });
}
