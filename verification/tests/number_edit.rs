use kufeditor::number_edit::{NumberCommand, NumberEdit, NumberOutcome};

#[test]
fn first_typed_character_replaces_the_selected_value() {
    let mut edit = NumberEdit::new(130, i64::from(i32::MIN), i64::from(i32::MAX));
    assert_eq!(
        edit.apply(NumberCommand::Insert('2')),
        NumberOutcome::Continue
    );
    assert_eq!(edit.draft(), "2");
    assert_eq!(
        edit.apply(NumberCommand::Insert('5')),
        NumberOutcome::Continue
    );
    assert_eq!(edit.apply(NumberCommand::Commit), NumberOutcome::Commit(25));
}

#[test]
fn troop_i32_extremes_remain_representable() {
    let minimum = i64::from(i32::MIN);
    let maximum = i64::from(i32::MAX);

    let mut edit = NumberEdit::new(minimum, minimum, maximum);
    assert_eq!(edit.draft(), i32::MIN.to_string());
    assert_eq!(
        edit.apply(NumberCommand::Commit),
        NumberOutcome::Commit(minimum)
    );

    let mut edit = NumberEdit::new(maximum, minimum, maximum);
    assert_eq!(edit.draft(), i32::MAX.to_string());
    assert_eq!(
        edit.apply(NumberCommand::Commit),
        NumberOutcome::Commit(maximum)
    );
}

#[test]
fn u32_value_above_i32_maximum_remains_representable() {
    let value = i64::from(u32::MAX);
    let mut edit = NumberEdit::new(value, 0, value);

    assert_eq!(edit.draft(), u32::MAX.to_string());
    assert_eq!(
        edit.apply(NumberCommand::Commit),
        NumberOutcome::Commit(value)
    );
}

#[test]
fn arrows_saturate_at_the_configured_bounds() {
    let mut edit = NumberEdit::new(65_535, 1, 65_535);
    assert_eq!(
        edit.apply(NumberCommand::Increment),
        NumberOutcome::Continue
    );
    assert_eq!(edit.draft(), "65535");

    let mut edit = NumberEdit::new(1, 1, 65_535);
    assert_eq!(
        edit.apply(NumberCommand::Decrement),
        NumberOutcome::Continue
    );
    assert_eq!(edit.draft(), "1");
}

#[test]
fn escape_cancels_without_an_edit() {
    let mut edit = NumberEdit::new(130, i64::from(i32::MIN), i64::from(i32::MAX));
    edit.apply(NumberCommand::Insert('9'));
    assert_eq!(edit.apply(NumberCommand::Cancel), NumberOutcome::Cancel);
}

#[test]
fn backspace_clears_a_still_selected_value() {
    let mut edit = NumberEdit::new(130, i64::from(i32::MIN), i64::from(i32::MAX));

    assert_eq!(
        edit.apply(NumberCommand::Backspace),
        NumberOutcome::Continue
    );
    assert_eq!(edit.draft(), "");
    assert_eq!(edit.apply(NumberCommand::Commit), NumberOutcome::Invalid);
    assert!(edit.invalid());
}

#[test]
fn commit_rejects_a_valid_integer_outside_the_configured_bounds() {
    let mut edit = NumberEdit::new(0, 0, 10);
    for character in "11".chars() {
        edit.apply(NumberCommand::Insert(character));
    }

    assert_eq!(edit.apply(NumberCommand::Commit), NumberOutcome::Invalid);
    assert!(edit.invalid());
}

#[test]
fn skill_maximum_level_accepts_its_inclusive_bounds() {
    let mut edit = NumberEdit::new(1, 1, 65_535);
    assert_eq!(edit.apply(NumberCommand::Commit), NumberOutcome::Commit(1));

    let mut edit = NumberEdit::new(65_535, 1, 65_535);
    assert_eq!(
        edit.apply(NumberCommand::Commit),
        NumberOutcome::Commit(65_535)
    );
}

#[test]
fn skill_maximum_level_rejects_values_outside_its_bounds() {
    let mut edit = NumberEdit::new(1, 1, 65_535);
    edit.apply(NumberCommand::Insert('0'));
    assert_eq!(edit.apply(NumberCommand::Commit), NumberOutcome::Invalid);
    assert!(edit.invalid());

    let mut edit = NumberEdit::new(1, 1, 65_535);
    for character in "65536".chars() {
        edit.apply(NumberCommand::Insert(character));
    }
    assert_eq!(edit.apply(NumberCommand::Commit), NumberOutcome::Invalid);
    assert!(edit.invalid());
}

#[test]
fn extreme_values_display_and_parse_back() {
    let mut edit = NumberEdit::new(i64::MIN, i64::MIN, i64::MAX);
    assert_eq!(edit.draft(), "-9223372036854775808");
    assert_eq!(edit.apply(NumberCommand::Commit), NumberOutcome::Commit(i64::MIN));
    assert_eq!(edit.apply(NumberCommand::Decrement), NumberOutcome::Continue);
    assert_eq!(edit.draft(), "-9223372036854775808");

    let mut edit = NumberEdit::new(i64::MAX, i64::MIN, i64::MAX);
    assert_eq!(edit.draft(), "9223372036854775807");
    assert_eq!(edit.apply(NumberCommand::Increment), NumberOutcome::Continue);
    assert_eq!(edit.apply(NumberCommand::Commit), NumberOutcome::Commit(i64::MAX));
}

#[test]
fn overflowing_draft_is_invalid_and_steps_are_rejected() {
    let mut edit = NumberEdit::new(0, i64::MIN, i64::MAX);
    for character in "9223372036854775808".chars() {
        assert_eq!(edit.apply(NumberCommand::Insert(character)), NumberOutcome::Continue);
    }
    assert_eq!(edit.apply(NumberCommand::Commit), NumberOutcome::Invalid);
    assert_eq!(edit.apply(NumberCommand::Increment), NumberOutcome::Invalid);
    assert!(edit.invalid());
}

#[test]
fn minus_sign_is_only_accepted_at_the_start() {
    let mut edit = NumberEdit::new(7, -100, 100);
    assert_eq!(edit.apply(NumberCommand::Insert('-')), NumberOutcome::Continue);
    assert_eq!(edit.apply(NumberCommand::Insert('4')), NumberOutcome::Continue);
    assert_eq!(edit.apply(NumberCommand::Insert('-')), NumberOutcome::Invalid);
    assert!(edit.invalid());
    assert_eq!(edit.draft(), "-4");
    assert_eq!(edit.apply(NumberCommand::Insert('x')), NumberOutcome::Invalid);
    assert_eq!(edit.apply(NumberCommand::Backspace), NumberOutcome::Continue);
    assert!(!edit.invalid());
    assert_eq!(edit.draft(), "-");
    assert_eq!(edit.apply(NumberCommand::Commit), NumberOutcome::Invalid);
    assert_eq!(edit.apply(NumberCommand::Backspace), NumberOutcome::Continue);
    assert_eq!(edit.apply(NumberCommand::Backspace), NumberOutcome::Continue);
    assert_eq!(edit.draft(), "");
}

#[test]
fn steps_clamp_an_out_of_range_draft_into_the_bounds() {
    let mut edit = NumberEdit::new(5, 0, 10);
    for character in "50".chars() {
        edit.apply(NumberCommand::Insert(character));
    }
    assert_eq!(edit.apply(NumberCommand::Decrement), NumberOutcome::Continue);
    assert_eq!(edit.draft(), "10");
    assert_eq!(edit.apply(NumberCommand::Insert('3')), NumberOutcome::Continue);
    assert_eq!(edit.draft(), "103");
}

fn shaped(draft: &str) -> bool {
    draft
        .chars()
        .enumerate()
        .all(|(i, c)| c.is_ascii_digit() || (i == 0 && c == '-'))
}

#[test]
fn every_draft_is_digits_with_at_most_a_leading_minus() {
    let mut edit = NumberEdit::new(-42, -100, 100);
    assert!(shaped(edit.draft()));
    let commands = [
        NumberCommand::Insert('-'),
        NumberCommand::Insert('-'),
        NumberCommand::Insert('x'),
        NumberCommand::Insert('7'),
        NumberCommand::Insert('-'),
        NumberCommand::Decrement,
        NumberCommand::Backspace,
        NumberCommand::Backspace,
        NumberCommand::Insert('-'),
        NumberCommand::Increment,
        NumberCommand::Insert('3'),
    ];
    for command in commands {
        edit.apply(command);
        assert!(shaped(edit.draft()), "draft {:?}", edit.draft());
    }
    assert_eq!(edit.draft(), "-3");
}
