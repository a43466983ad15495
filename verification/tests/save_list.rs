use kufeditor::save_list::{
    adjacent_position, empty_label, merge_save_presentation_transition, move_position,
    next_choice, save_section_id, save_section_label, save_sections, scroll_anchor,
    selector_slug, yes_no, SaveListMovement, SavePresentationTransition, SaveSection,
    ScrollAnchor, PLAYER_ONLY_FILTER_LABEL,
};

#[test]
fn save_view_section_rail_has_stable_labels_and_focus_order() {
    assert_eq!(
        save_sections().map(|section| save_section_label(section, 3, 7)),
        ["Summary", "Units · 3", "Equipment", "Roster · 7", "Missions"],
    );
    assert_eq!(
        save_sections().map(save_section_id),
        [
            "save-section-summary",
            "save-section-units",
            "save-section-equipment",
            "save-section-roster",
            "save-section-missions",
        ],
    );
    assert_eq!(save_sections().first(), Some(&SaveSection::Summary));
}

#[test]
fn save_view_player_only_filter_keeps_its_stable_label() {
    assert_eq!(PLAYER_ONLY_FILTER_LABEL, "Player only");
}

#[test]
fn list_movements_saturate_at_the_ends() {
    assert_eq!(move_position(SaveListMovement::Up, 0, 5, 3), 0);
    assert_eq!(move_position(SaveListMovement::Down, 4, 5, 3), 4);
    assert_eq!(move_position(SaveListMovement::Down, 1, 5, 3), 2);
    assert_eq!(move_position(SaveListMovement::Home, 3, 5, 3), 0);
    assert_eq!(move_position(SaveListMovement::End, 0, 5, 3), 4);
    assert_eq!(move_position(SaveListMovement::PageUp, 2, 5, 3), 0);
    assert_eq!(move_position(SaveListMovement::PageDown, 2, 5, 3), 4);
    assert_eq!(move_position(SaveListMovement::PageDown, 0, 10, 3), 3);
    assert_eq!(move_position(SaveListMovement::Left, 2, 5, 3), 2);
    assert_eq!(scroll_anchor(SaveListMovement::PageUp), ScrollAnchor::Top);
    assert_eq!(scroll_anchor(SaveListMovement::End), ScrollAnchor::Bottom);
    assert_eq!(scroll_anchor(SaveListMovement::Right), ScrollAnchor::Center);
}

#[test]
fn adjacent_fields_stop_at_the_first_and_last() {
    assert_eq!(adjacent_position(0, 4, false), 0);
    assert_eq!(adjacent_position(0, 4, true), 1);
    assert_eq!(adjacent_position(3, 4, true), 3);
    assert_eq!(adjacent_position(2, 4, false), 1);
}

#[test]
fn choices_cycle_and_unknown_values_start_at_the_first() {
    let choices = vec![10, 20, 30];
    assert_eq!(next_choice(&choices, 10), Some(20));
    assert_eq!(next_choice(&choices, 30), Some(10));
    assert_eq!(next_choice(&choices, 99), Some(10));
    assert_eq!(next_choice(&vec![5, 5, 7], 5), Some(5));
    assert_eq!(next_choice(&Vec::new(), 1), None);
}

#[test]
fn merged_transitions_keep_the_strongest_effect() {
    let unchanged = SavePresentationTransition::Unchanged;
    let changed = SavePresentationTransition::Changed;
    let cancel = SavePresentationTransition::ChangedAndCancelDraft;
    assert_eq!(merge_save_presentation_transition(unchanged, unchanged), unchanged);
    assert_eq!(merge_save_presentation_transition(unchanged, changed), changed);
    assert_eq!(merge_save_presentation_transition(cancel, changed), cancel);
    assert!(cancel.cancels_draft());
    assert!(!changed.cancels_draft());
    assert!(changed.changed());
    assert!(!unchanged.changed());
}

#[test]
fn selector_slugs_join_lowercase_words_with_dashes() {
    assert_eq!(selector_slug("Leader Weapon"), "leader-weapon");
    assert_eq!(selector_slug("  HP (max) 0x1A "), "hp-max-0x1a");
    assert_eq!(selector_slug("--"), "");
    assert_eq!(selector_slug("Ümlaut"), "mlaut");
}

#[test]
fn small_labels_show_yes_no_and_a_dash_for_empty_values() {
    assert_eq!(yes_no(true), "Yes");
    assert_eq!(yes_no(false), "No");
    assert_eq!(empty_label(""), "—");
    assert_eq!(empty_label("x"), "x");
}

#[test]
fn switching_documents_always_changes_the_view() {
    let unchanged = SavePresentationTransition::Unchanged;
    let changed = SavePresentationTransition::Changed;
    let cancel = SavePresentationTransition::ChangedAndCancelDraft;
    assert_eq!(kufeditor::save_list::activation_transition(unchanged, true, false), changed);
    assert_eq!(kufeditor::save_list::activation_transition(unchanged, true, true), cancel);
    assert_eq!(kufeditor::save_list::activation_transition(unchanged, false, true), unchanged);
    assert_eq!(kufeditor::save_list::activation_transition(changed, true, true), changed);
}
