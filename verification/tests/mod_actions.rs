use kufeditor::mod_actions::{
    optional_mod_text, refresh_scope, safe_package_filename, stop_requested, trim_text,
    ModRefreshScope, ProgressNumbering, TrimSet,
};
use kufeditor::mod_status::{ModOperationKind, ModProgressPhase};

#[test]
fn optional_text_is_trimmed_and_blank_text_is_absent() {
    assert_eq!(optional_mod_text("  Alpha pack \t"), Some("Alpha pack".to_owned()));
    assert_eq!(optional_mod_text(" \n\t "), None);
    assert_eq!(optional_mod_text(""), None);
    assert_eq!(optional_mod_text("\u{3000}x\u{a0}"), Some("x".to_owned()));
}

#[test]
fn package_filenames_keep_safe_characters_only() {
    assert_eq!(safe_package_filename("  My Mod v1.0 "), "My-Mod-v1.0");
    assert_eq!(safe_package_filename("--.hidden.--"), "hidden");
    assert_eq!(safe_package_filename("a/b\\c:d"), "a-b-c-d");
    assert_eq!(safe_package_filename("Ümlaut_mod"), "Ümlaut_mod");
    assert_eq!(safe_package_filename("   "), "package");
    assert_eq!(safe_package_filename("///"), "package");
    assert_eq!(safe_package_filename("Forged Pack"), "Forged-Pack");
    assert_eq!(safe_package_filename("1.0"), "1.0");
    assert_eq!(safe_package_filename(" / "), "package");
}

#[test]
fn trimming_removes_only_the_ends() {
    assert_eq!(trim_text("..a.b..", TrimSet::DashOrDot), "a.b");
    assert_eq!(trim_text("-", TrimSet::DashOrDot), "");
    assert_eq!(trim_text(" a b ", TrimSet::WhiteSpace), "a b");
}

#[test]
fn package_operations_refresh_the_library_and_the_others_everything() {
    assert_eq!(refresh_scope(ModOperationKind::Import), ModRefreshScope::Library);
    assert_eq!(refresh_scope(ModOperationKind::Create), ModRefreshScope::Library);
    assert_eq!(refresh_scope(ModOperationKind::RemovePackage), ModRefreshScope::Library);
    assert_eq!(refresh_scope(ModOperationKind::Apply), ModRefreshScope::Full);
    assert_eq!(refresh_scope(ModOperationKind::Uninstall), ModRefreshScope::Full);
    assert_eq!(refresh_scope(ModOperationKind::CreateBackup), ModRefreshScope::Full);
    assert_eq!(refresh_scope(ModOperationKind::RestoreBackup), ModRefreshScope::Full);
    assert_eq!(refresh_scope(ModOperationKind::DeleteBackup), ModRefreshScope::Full);
}

#[test]
fn progress_numbering_marks_a_repeated_phase_as_a_new_epoch() {
    let mut numbering = ProgressNumbering::new();
    assert_eq!(numbering.number(ModProgressPhase::InspectingPackage), (1, 1));
    assert_eq!(numbering.number(ModProgressPhase::PublishingPackage), (2, 2));
    assert_eq!(numbering.number(ModProgressPhase::InspectingPackage), (3, 3));
    assert_eq!(numbering.number(ModProgressPhase::InspectingPackage), (4, 3));
}

#[test]
fn progress_numbering_keeps_one_epoch_for_a_steady_phase() {
    let mut numbering = ProgressNumbering::new();
    for completed in 0..100u64 {
        assert_eq!(
            numbering.number(ModProgressPhase::StagingFiles),
            (completed + 1, 1)
        );
    }
}

#[test]
fn a_requested_cancellation_stops_only_in_cancelable_phases() {
    assert!(!stop_requested(false, ModProgressPhase::CopyingPackage));
    assert!(!stop_requested(true, ModProgressPhase::PublishingPackage));
    assert!(stop_requested(true, ModProgressPhase::CopyingPackage));
    assert!(!stop_requested(true, ModProgressPhase::RollingBack));
}

#[test]
fn white_space_trimming_agrees_with_the_standard_library_on_every_character() {
    for c in (0..=0x10FFFF_u32).filter_map(char::from_u32) {
        let text = c.to_string();
        let trimmed = trim_text(&text, TrimSet::WhiteSpace);
        assert_eq!(trimmed.is_empty(), c.is_whitespace(), "U+{:04X}", u32::from(c));
    }
}
