//! Keyboard editing of one bounded integer field.

use vstd::prelude::*;

use crate::integer_text::{
    decimal, decimal_digits, decimal_string, is_digit, lemma_decimal_digits, lemma_parse_decimal, parse_decimal, parse_i64, pop_char, push_char,
};

verus! {

/// One keyboard command applied to a numeric draft.
#[derive(Clone, Copy, Debug, PartialEq, Eq, Structural)]
pub enum NumberCommand {
    Insert(char),
    Backspace,
    Increment,
    Decrement,
    Commit,
    Cancel,
}

/// What a command asks of the surrounding editor.
#[derive(Clone, Copy, Debug, PartialEq, Eq, Structural)]
pub enum NumberOutcome {
    Continue,
    Commit(i64),
    Cancel,
    Invalid,
}

/// A numeric draft bounded by an inclusive range.
#[derive(Debug)]
pub struct NumberEdit {
    draft: String,
    minimum: i64,
    maximum: i64,
    replace_on_input: bool,
    invalid: bool,
}

/// The abstract state of a [`NumberEdit`].
pub struct NumberEditView {
    pub draft: Seq<char>,
    pub minimum: int,
    pub maximum: int,
    pub replace_on_input: bool,
    pub invalid: bool,
}

impl View for NumberEdit {
    type V = NumberEditView;

    closed spec fn view(&self) -> NumberEditView {
        NumberEditView {
            draft: self.draft@,
            minimum: self.minimum as int,
            maximum: self.maximum as int,
            replace_on_input: self.replace_on_input,
            invalid: self.invalid,
        }
    }
}

/// An ASCII decimal digit.
pub open spec fn is_ascii_digit(c: char) -> bool {
    '0' <= c && c <= '9'
}

/// The shape of every draft: ASCII digits, with a minus sign allowed only
/// as the first character.
pub open spec fn draft_shaped(s: Seq<char>) -> bool {
    forall|i: int| 0 <= i < s.len() ==> is_ascii_digit(#[trigger] s[i]) || (i == 0 && s[i] == '-')
}

/// Whether an inserted character is accepted: a digit always, a minus sign
/// only at the start of a draft (an empty one, or one about to be replaced).
pub open spec fn insert_accepts(s: NumberEditView, c: char) -> bool {
    is_ascii_digit(c) || (c == '-' && (s.replace_on_input || s.draft.len() == 0))
}

/// `v` moved by one toward `upward`, saturating at the `i64` limits and then
/// clamped to `[minimum, maximum]`.
pub open spec fn stepped_value(v: int, upward: bool, minimum: int, maximum: int) -> int {
    let moved = if upward {
        if v == i64::MAX {
            v
        } else {
            v + 1
        }
    } else {
        if v == i64::MIN {
            v
        } else {
            v - 1
        }
    };
    if moved < minimum {
        minimum
    } else if moved > maximum {
        maximum
    } else {
        moved
    }
}

/// The state after a step command, and its outcome.
pub open spec fn step_spec(s: NumberEditView, upward: bool) -> (NumberEditView, NumberOutcome) {
    match parse_i64(s.draft) {
        None => (NumberEditView { invalid: true, ..s }, NumberOutcome::Invalid),
        Some(v) => (
            NumberEditView {
                draft: decimal(stepped_value(v, upward, s.minimum, s.maximum)),
                replace_on_input: false,
                invalid: false,
                ..s
            },
            NumberOutcome::Continue,
        ),
    }
}

/// The state after `command`, and the outcome it reports.
pub open spec fn apply_spec(s: NumberEditView, command: NumberCommand) -> (
    NumberEditView,
    NumberOutcome,
) {
    match command {
        NumberCommand::Insert(c) => if !insert_accepts(s, c) {
            (NumberEditView { invalid: true, ..s }, NumberOutcome::Invalid)
        } else {
            let base = if s.replace_on_input {
                Seq::<char>::empty()
            } else {
                s.draft
            };
            (
                NumberEditView { draft: base.push(c), replace_on_input: false, invalid: false, ..s },
                NumberOutcome::Continue,
            )
        },
        NumberCommand::Backspace => {
            let draft = if s.replace_on_input {
                Seq::<char>::empty()
            } else if s.draft.len() > 0 {
                s.draft.drop_last()
            } else {
                s.draft
            };
            (
                NumberEditView { draft, replace_on_input: false, invalid: false, ..s },
                NumberOutcome::Continue,
            )
        },
        NumberCommand::Increment => step_spec(s, true),
        NumberCommand::Decrement => step_spec(s, false),
        NumberCommand::Commit => match parse_i64(s.draft) {
            Some(v) => if s.minimum <= v <= s.maximum {
                (s, NumberOutcome::Commit(v as i64))
            } else {
                (NumberEditView { invalid: true, ..s }, NumberOutcome::Invalid)
            },
            None => (NumberEditView { invalid: true, ..s }, NumberOutcome::Invalid),
        },
        NumberCommand::Cancel => (s, NumberOutcome::Cancel),
    }
}

impl NumberEdit {
    /// The edit's bounds are ordered and its draft has the shape of one.
    pub open spec fn well_formed(&self) -> bool {
        &&& self@.minimum <= self@.maximum
        &&& draft_shaped(self@.draft)
    }

    /// Opens an edit of `value` whose whole text is selected, so that the
    /// first typed character replaces it.
    pub fn new(value: i64, minimum: i64, maximum: i64) -> (edit: Self)
        requires
            minimum <= maximum,
        ensures
            edit.well_formed(),
            edit@.draft == decimal(value as int),
            edit@.minimum == minimum,
            edit@.maximum == maximum,
            edit@.replace_on_input,
            !edit@.invalid,
    {
        proof {
            law_opened_draft_is_shaped(value as int);
        }
        NumberEdit {
            draft: decimal_string(value),
            minimum,
            maximum,
            replace_on_input: true,
            invalid: false,
        }
    }

    /// The current draft text.
    pub fn draft(&self) -> (draft: &str)
        ensures
            draft@ == self@.draft,
    {
        self.draft.as_str()
    }

    /// Whether the last command was rejected.
    pub fn invalid(&self) -> (invalid: bool)
        ensures
            invalid == self@.invalid,
    {
        self.invalid
    }

    /// Applies one keyboard command.
    pub fn apply(&mut self, command: NumberCommand) -> (outcome: NumberOutcome)
        requires
            old(self).well_formed(),
        ensures
            final(self).well_formed(),
            (final(self)@, outcome) == apply_spec(old(self)@, command),
    {
        match command {
            NumberCommand::Insert(character) => self.insert(character),
            NumberCommand::Backspace => {
                if self.replace_on_input {
                    self.draft = String::new();
                    self.replace_on_input = false;
                } else {
                    pop_char(&mut self.draft);
                }
                self.invalid = false;
                NumberOutcome::Continue
            },
            NumberCommand::Increment => self.step(true),
            NumberCommand::Decrement => self.step(false),
            NumberCommand::Commit => {
                match parse_decimal(self.draft.as_str()) {
                    Some(value) => {
                        if self.minimum <= value && value <= self.maximum {
                            NumberOutcome::Commit(value)
                        } else {
                            self.invalid = true;
                            NumberOutcome::Invalid
                        }
                    },
                    None => {
                        self.invalid = true;
                        NumberOutcome::Invalid
                    },
                }
            },
            NumberCommand::Cancel => NumberOutcome::Cancel,
        }
    }

    fn insert(&mut self, character: char) -> (outcome: NumberOutcome)
        requires
            old(self).well_formed(),
        ensures
            final(self).well_formed(),
            (final(self)@, outcome) == apply_spec(old(self)@, NumberCommand::Insert(character)),
    {
        let replacing = self.replace_on_input;
        let accepts = ('0' <= character && character <= '9') || (character == '-' && (replacing
            || self.draft.as_str().unicode_len() == 0));
        if !accepts {
            self.invalid = true;
            return NumberOutcome::Invalid;
        }
        if replacing {
            self.draft = String::new();
            self.replace_on_input = false;
        }
        push_char(&mut self.draft, character);
        self.invalid = false;
        NumberOutcome::Continue
    }

    fn step(&mut self, upward: bool) -> (outcome: NumberOutcome)
        requires
            old(self).well_formed(),
        ensures
            final(self).well_formed(),
            (final(self)@, outcome) == step_spec(old(self)@, upward),
    {
        let value = match parse_decimal(self.draft.as_str()) {
            Some(value) => value,
            None => {
                self.invalid = true;
                return NumberOutcome::Invalid;
            },
        };
        let moved = if upward {
            if value == i64::MAX {
                value
            } else {
                value + 1
            }
        } else {
            if value == i64::MIN {
                value
            } else {
                value - 1
            }
        };
        let clamped = if moved < self.minimum {
            self.minimum
        } else if moved > self.maximum {
            self.maximum
        } else {
            moved
        };
        proof {
            law_opened_draft_is_shaped(clamped as int);
        }
        self.draft = decimal_string(clamped);
        self.replace_on_input = false;
        self.invalid = false;
        NumberOutcome::Continue
    }
}

/// A freshly opened edit whose value lies within its bounds commits that
/// value unchanged.
pub proof fn law_fresh_edit_commits_its_value(s: NumberEditView, value: int)
    requires
        i64::MIN <= value <= i64::MAX,
        s.draft == decimal(value),
        s.minimum <= value <= s.maximum,
    ensures
        apply_spec(s, NumberCommand::Commit) == (s, NumberOutcome::Commit(value as i64)),
{
    lemma_parse_decimal(value);
}

/// After an accepted step the draft shows a value within the bounds, so the
/// next commit succeeds with exactly that value.
pub proof fn law_step_then_commit(s: NumberEditView, upward: bool)
    requires
        i64::MIN <= s.minimum <= s.maximum <= i64::MAX,
        parse_i64(s.draft) is Some,
    ensures
        ({
            let (t, outcome) = step_spec(s, upward);
            let v = stepped_value(parse_i64(s.draft).unwrap(), upward, s.minimum, s.maximum);
            &&& outcome == NumberOutcome::Continue
            &&& s.minimum <= v <= s.maximum
            &&& apply_spec(t, NumberCommand::Commit) == (t, NumberOutcome::Commit(v as i64))
        }),
{
    let v = stepped_value(parse_i64(s.draft).unwrap(), upward, s.minimum, s.maximum);
    lemma_parse_decimal(v);
}

/// The text of every integer has the shape of a draft, so every edit opens
/// with a shaped draft.
pub proof fn law_opened_draft_is_shaped(value: int)
    ensures
        draft_shaped(decimal(value)),
{
    let s = decimal(value);
    if value < 0 {
        let m = (-value) as nat;
        lemma_decimal_digits(m);
        assert forall|i: int| 0 <= i < s.len() implies is_ascii_digit(#[trigger] s[i]) || (i == 0
            && s[i] == '-') by {
            if i > 0 {
                assert(s[i] == decimal_digits(m)[i - 1]);
                assert(is_digit(decimal_digits(m)[i - 1]));
            }
        }
    } else {
        lemma_decimal_digits(value as nat);
        assert forall|i: int| 0 <= i < s.len() implies is_ascii_digit(#[trigger] s[i]) || (i == 0
            && s[i] == '-') by {
            assert(is_digit(s[i]));
        }
    }
}

/// Every command keeps the shape of the draft: whatever keys are pressed,
/// a draft is digits with at most a leading minus sign.
pub proof fn law_commands_keep_draft_shape(s: NumberEditView, command: NumberCommand)
    requires
        draft_shaped(s.draft),
    ensures
        draft_shaped(apply_spec(s, command).0.draft),
{
    let t = apply_spec(s, command).0;
    match command {
        NumberCommand::Insert(c) => {
            if insert_accepts(s, c) {
                let base = if s.replace_on_input {
                    Seq::<char>::empty()
                } else {
                    s.draft
                };
                assert(t.draft == base.push(c));
                assert forall|i: int| 0 <= i < t.draft.len() implies is_ascii_digit(
                    #[trigger] t.draft[i],
                ) || (i == 0 && t.draft[i] == '-') by {
                    if i < base.len() {
                        assert(t.draft[i] == base[i]);
                    }
                }
            }
        },
        NumberCommand::Backspace => {
            if !s.replace_on_input && s.draft.len() > 0 {
                assert forall|i: int| 0 <= i < t.draft.len() implies is_ascii_digit(
                    #[trigger] t.draft[i],
                ) || (i == 0 && t.draft[i] == '-') by {
                    assert(t.draft[i] == s.draft[i]);
                }
            }
        },
        NumberCommand::Increment => {
            if let Some(v) = parse_i64(s.draft) {
                law_opened_draft_is_shaped(stepped_value(v, true, s.minimum, s.maximum));
            }
        },
        NumberCommand::Decrement => {
            if let Some(v) = parse_i64(s.draft) {
                law_opened_draft_is_shaped(stepped_value(v, false, s.minimum, s.maximum));
            }
        },
        _ => {},
    }
}

/// Cancel never changes the edit.
pub proof fn law_cancel_changes_nothing(s: NumberEditView)
    ensures
        apply_spec(s, NumberCommand::Cancel) == (s, NumberOutcome::Cancel),
{
}

/// The invalid flag reports the outcome of every editing command: it is set
/// exactly when the command is rejected, and commit and cancel only ever set it.
pub proof fn law_invalid_flag_tracks_outcome(s: NumberEditView, command: NumberCommand)
    ensures
        ({
            let (t, outcome) = apply_spec(s, command);
            &&& outcome == NumberOutcome::Invalid ==> t.invalid
            &&& outcome == NumberOutcome::Continue ==> !t.invalid
            &&& (outcome is Commit || outcome == NumberOutcome::Cancel) ==> t == s
        }),
{
}

/// A committed value always lies within the edit's bounds and is the value
/// that the draft spells.
pub proof fn law_commit_within_bounds(s: NumberEditView)
    ensures
        apply_spec(s, NumberCommand::Commit).1 matches NumberOutcome::Commit(v) ==> {
            &&& s.minimum <= v <= s.maximum
            &&& parse_i64(s.draft) == Some(v as int)
        },
{
}

/// A step moves a value inside the bounds by exactly one, stopping at the
/// bound it moves toward, and brings a value outside the bounds to the
/// nearer bound whichever way it steps.
pub proof fn law_steps_move_by_one_within_the_bounds(v: int, minimum: int, maximum: int)
    requires
        i64::MIN <= minimum <= maximum <= i64::MAX,
        i64::MIN <= v <= i64::MAX,
    ensures
        minimum <= v < maximum ==> stepped_value(v, true, minimum, maximum) == v + 1,
        v == maximum ==> stepped_value(v, true, minimum, maximum) == maximum,
        minimum < v <= maximum ==> stepped_value(v, false, minimum, maximum) == v - 1,
        v == minimum ==> stepped_value(v, false, minimum, maximum) == minimum,
        v < minimum ==> stepped_value(v, true, minimum, maximum) == minimum && stepped_value(
            v,
            false,
            minimum,
            maximum,
        ) == minimum,
        v > maximum ==> stepped_value(v, true, minimum, maximum) == maximum && stepped_value(
            v,
            false,
            minimum,
            maximum,
        ) == maximum,
{
}

} // verus!
