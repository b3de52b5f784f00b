//! The per-field input constraints of the trigger modes — each field's legal
//! range and its explanatory text — and the validation of user-typed field
//! text against them.

use vstd::prelude::*;

verus! {

use vstd::string::*;
use crate::text::{parse_u8_spec, parse_u8_str, split_comma, split_commas, trim_spec, trim_str};

/// A trigger field's inclusive range and its explanatory text.
#[derive(Debug, Clone)]
pub struct FieldConstraint {
    pub min: u8,
    pub max: u8,
    pub tooltip: String,
}

/// The mathematical content of one constraint table row.
pub struct ConstraintEntry {
    pub name: Seq<char>,
    pub min: u8,
    pub max: u8,
    pub tooltip: Seq<char>,
}

/// Whether a built table row carries exactly the modelled row.
pub open spec fn entry_matches(e: (String, FieldConstraint), m: ConstraintEntry) -> bool {
    e.0@ == m.name && e.1.min == m.min && e.1.max == m.max && e.1.tooltip@ == m.tooltip
}

/// The constraint table: every numeric field of every trigger mode, its
/// range, and its explanatory text. The stop and second-foot lower bounds
/// are the static ones; the live lower bound rises with the field they must
/// exceed.
pub open spec fn constraint_table() -> Seq<ConstraintEntry> {
    seq![
        ConstraintEntry {
            name: "Feedback_Position"@,
            min: 0,
            max: 9,
            tooltip: "Position must be between 0 and 9."@,
        },
        ConstraintEntry {
            name: "Feedback_Strength"@,
            min: 1,
            max: 8,
            tooltip: "Strength must be between 1 and 8."@,
        },
        ConstraintEntry {
            name: "Weapon_Start"@,
            min: 2,
            max: 7,
            tooltip: "Start position must be between 2 and 7."@,
        },
        ConstraintEntry {
            name: "Weapon_Stop"@,
            min: 3,
            max: 8,
            tooltip: "Stop position must be between Start+1 and 8."@,
        },
        ConstraintEntry {
            name: "Weapon_Strength"@,
            min: 1,
            max: 8,
            tooltip: "Strength must be between 1 and 8."@,
        },
        ConstraintEntry {
            name: "Bow_Start"@,
            min: 1,
            max: 8,
            tooltip: "Start position must be between 1 and 8."@,
        },
        ConstraintEntry {
            name: "Bow_Stop"@,
            min: 2,
            max: 8,
            tooltip: "Stop position must be between Start+1 and 8."@,
        },
        ConstraintEntry {
            name: "Bow_Strength"@,
            min: 1,
            max: 8,
            tooltip: "Strength must be between 1 and 8."@,
        },
        ConstraintEntry {
            name: "Bow_Snapforce"@,
            min: 1,
            max: 8,
            tooltip: "Snapforce must be between 1 and 8."@,
        },
        ConstraintEntry {
            name: "Galloping_Start"@,
            min: 0,
            max: 8,
            tooltip: "Start position must be between 0 and 8."@,
        },
        ConstraintEntry {
            name: "Galloping_Stop"@,
            min: 1,
            max: 9,
            tooltip: "Stop position must be between Start+1 and 9."@,
        },
        ConstraintEntry {
            name: "Galloping_FirstFoot"@,
            min: 0,
            max: 6,
            tooltip: "First Foot must be between 0 and 6."@,
        },
        ConstraintEntry {
            name: "Galloping_SecondFoot"@,
            min: 1,
            max: 7,
            tooltip: "Second Foot must be between FirstFoot+1 and 7."@,
        },
        ConstraintEntry {
            name: "Galloping_Frequency"@,
            min: 1,
            max: 8,
            tooltip: "Frequency must be greater than 0 and ideally lower than 8."@,
        },
        ConstraintEntry {
            name: "Machine_Start"@,
            min: 1,
            max: 8,
            tooltip: "Start position must be between 1 and 8."@,
        },
        ConstraintEntry {
            name: "Machine_Stop"@,
            min: 2,
            max: 9,
            tooltip: "Stop position must be between Start+1 and 9."@,
        },
        ConstraintEntry {
            name: "Machine_StrengthA"@,
            min: 0,
            max: 7,
            tooltip: "Strength A must be between 0 and 7."@,
        },
        ConstraintEntry {
            name: "Machine_StrengthB"@,
            min: 0,
            max: 7,
            tooltip: "Strength B must be between 0 and 7."@,
        },
        ConstraintEntry {
            name: "Machine_Frequency"@,
            min: 1,
            max: 255,
            tooltip: "Frequency must be greater than 0."@,
        },
        ConstraintEntry {
            name: "Machine_Period"@,
            min: 0,
            max: 255,
            tooltip: "Period must be between 0 and 255."@,
        },
        ConstraintEntry {
            name: "FeedbackRaw_Strength"@,
            min: 0,
            max: 8,
            tooltip: "Strength values must be between 0 and 8, exactly 10 values."@,
        },
        ConstraintEntry {
            name: "VibrationRaw_Amplitude"@,
            min: 0,
            max: 255,
            tooltip: "Amplitude values must be between 0 and 255, exactly 10 values."@,
        },
        ConstraintEntry {
            name: "VibrationRaw_Frequency"@,
            min: 1,
            max: 255,
            tooltip: "Frequency must be greater than 0 and up to 255."@,
        },
        ConstraintEntry {
            name: "Mode_Params"@,
            min: 0,
            max: 255,
            tooltip: "Enter 9 comma-separated values (0-255)."@,
        },
    ]
}

/// Builds one table row.
fn table_row(name: &str, min: u8, max: u8, tooltip: &str) -> (r: (String, FieldConstraint))
    ensures
        r.0@ == name@,
        r.1.min == min,
        r.1.max == max,
        r.1.tooltip@ == tooltip@,
{
    (String::from_str(name), FieldConstraint { min, max, tooltip: String::from_str(tooltip) })
}

/// The constraint table as built rows, exactly mirroring
/// `constraint_table`, row for row.
pub fn get_field_constraints() -> (r: Vec<(String, FieldConstraint)>)
    ensures
        r@.len() == constraint_table().len(),
        forall|i: int|
            0 <= i < r@.len() ==> entry_matches(#[trigger] r@[i], constraint_table()[i]),
{
    let mut rows: Vec<(String, FieldConstraint)> = Vec::new();
    rows.push(table_row("Feedback_Position", 0, 9, "Position must be between 0 and 9."));
    rows.push(table_row("Feedback_Strength", 1, 8, "Strength must be between 1 and 8."));
    rows.push(table_row("Weapon_Start", 2, 7, "Start position must be between 2 and 7."));
    rows.push(table_row("Weapon_Stop", 3, 8, "Stop position must be between Start+1 and 8."));
    rows.push(table_row("Weapon_Strength", 1, 8, "Strength must be between 1 and 8."));
    rows.push(table_row("Bow_Start", 1, 8, "Start position must be between 1 and 8."));
    rows.push(table_row("Bow_Stop", 2, 8, "Stop position must be between Start+1 and 8."));
    rows.push(table_row("Bow_Strength", 1, 8, "Strength must be between 1 and 8."));
    rows.push(table_row("Bow_Snapforce", 1, 8, "Snapforce must be between 1 and 8."));
    rows.push(table_row("Galloping_Start", 0, 8, "Start position must be between 0 and 8."));
    rows.push(table_row("Galloping_Stop", 1, 9, "Stop position must be between Start+1 and 9."));
    rows.push(table_row("Galloping_FirstFoot", 0, 6, "First Foot must be between 0 and 6."));
    rows.push(
        table_row("Galloping_SecondFoot", 1, 7, "Second Foot must be between FirstFoot+1 and 7."),
    );
    rows.push(
        table_row(
            "Galloping_Frequency",
            1,
            8,
            "Frequency must be greater than 0 and ideally lower than 8.",
        ),
    );
    rows.push(table_row("Machine_Start", 1, 8, "Start position must be between 1 and 8."));
    rows.push(table_row("Machine_Stop", 2, 9, "Stop position must be between Start+1 and 9."));
    rows.push(table_row("Machine_StrengthA", 0, 7, "Strength A must be between 0 and 7."));
    rows.push(table_row("Machine_StrengthB", 0, 7, "Strength B must be between 0 and 7."));
    rows.push(table_row("Machine_Frequency", 1, 255, "Frequency must be greater than 0."));
    rows.push(table_row("Machine_Period", 0, 255, "Period must be between 0 and 255."));
    rows.push(
        table_row(
            "FeedbackRaw_Strength",
            0,
            8,
            "Strength values must be between 0 and 8, exactly 10 values.",
        ),
    );
    rows.push(
        table_row(
            "VibrationRaw_Amplitude",
            0,
            255,
            "Amplitude values must be between 0 and 255, exactly 10 values.",
        ),
    );
    rows.push(
        table_row(
            "VibrationRaw_Frequency",
            1,
            255,
            "Frequency must be greater than 0 and up to 255.",
        ),
    );
    rows.push(table_row("Mode_Params", 0, 255, "Enter 9 comma-separated values (0-255)."));
    proof {
        assert forall|i: int| 0 <= i < rows@.len() implies entry_matches(
            #[trigger] rows@[i],
            constraint_table()[i],
        ) by {
            assert(0 <= i < 24);
        }
    }
    rows
}

/// Whether one comma-separated piece, once trimmed, is a byte within the
/// inclusive range.
pub open spec fn piece_in_range(piece: Seq<char>, min: u8, max: u8) -> bool {
    match parse_u8_spec(trim_spec(piece)) {
        Some(v) => min <= v && v <= max,
        None => false,
    }
}

/// Whether every comma-separated piece of the text is a byte within the
/// inclusive range.
pub open spec fn values_text_valid(text: Seq<char>, min: u8, max: u8) -> bool {
    forall|i: int|
        0 <= i < split_comma(text).len() ==> piece_in_range(
            #[trigger] split_comma(text)[i],
            min,
            max,
        )
}

/// Validates field text against a constraint: every comma-separated value,
/// trimmed, must parse as a byte inside the constraint's range.
pub fn validate_input(text: &str, constraint: &FieldConstraint) -> (r: bool)
    ensures
        r == values_text_valid(text@, constraint.min, constraint.max),
{
    let pieces = split_commas(text);
    let mut i: usize = 0;
    while i < pieces.len()
        invariant
            0 <= i <= pieces@.len(),
            pieces.deep_view() == split_comma(text@),
            forall|j: int|
                0 <= j < i ==> piece_in_range(
                    #[trigger] split_comma(text@)[j],
                    constraint.min,
                    constraint.max,
                ),
        decreases pieces@.len() - i,
    {
        let trimmed = trim_str(pieces[i].as_str());
        proof {
            assert(pieces.deep_view()[i as int] == pieces@[i as int]@);
        }
        match parse_u8_str(trimmed) {
            Some(v) => {
                if v < constraint.min || v > constraint.max {
                    return false;
                }
            },
            None => {
                return false;
            },
        }
        i = i + 1;
    }
    true
}

/// Whether every comma-separated piece of the text, trimmed, parses as a
/// byte.
pub open spec fn all_pieces_parse(text: Seq<char>) -> bool {
    forall|i: int|
        0 <= i < split_comma(text).len() ==> parse_u8_spec(
            trim_spec(#[trigger] split_comma(text)[i]),
        ) is Some
}

/// Validates the free-form mode parameter text: at most nine
/// comma-separated values, each parsing as a byte.
pub fn validate_comma_separated_input_up_to_9(input: &str) -> (r: bool)
    ensures
        r == (split_comma(input@).len() <= 9 && all_pieces_parse(input@)),
{
    let pieces = split_commas(input);
    if pieces.len() > 9 {
        return false;
    }
    all_parse(&pieces, input)
}

/// Validates raw-array text: exactly ten comma-separated values, each
/// parsing as a byte.
pub fn validate_comma_separated_input_exact_10(input: &str) -> (r: bool)
    ensures
        r == (split_comma(input@).len() == 10 && all_pieces_parse(input@)),
{
    let pieces = split_commas(input);
    if pieces.len() != 10 {
        return false;
    }
    all_parse(&pieces, input)
}

/// Whether every piece, trimmed, parses as a byte.
fn all_parse(pieces: &Vec<String>, input: &str) -> (r: bool)
    requires
        pieces.deep_view() == split_comma(input@),
    ensures
        r == all_pieces_parse(input@),
{
    let mut i: usize = 0;
    while i < pieces.len()
        invariant
            0 <= i <= pieces@.len(),
            pieces.deep_view() == split_comma(input@),
            forall|j: int|
                0 <= j < i ==> parse_u8_spec(trim_spec(#[trigger] split_comma(input@)[j])) is Some,
        decreases pieces@.len() - i,
    {
        let trimmed = trim_str(pieces[i].as_str());
        proof {
            assert(pieces.deep_view()[i as int] == pieces@[i as int]@);
        }
        if parse_u8_str(trimmed).is_none() {
            return false;
        }
        i = i + 1;
    }
    true
}

} // verus!
