//! Round-trip and scenario tests for the trigger command codec.

use dualsensectl_gui::decode::{apply_trigger_command, decode_trigger};
use dualsensectl_gui::structs::{Controller, Trigger, TriggerEffect};
use dualsensectl_gui::text::tokenize;

fn toks(words: &[&str]) -> Vec<String> {
    words.iter().map(|w| w.to_string()).collect()
}

#[test]
fn encode_feedback_right() {
    let t = Trigger {
        side: "right".to_string(),
        effect: TriggerEffect::Feedback { position: 0, strength: 1 },
    };
    assert_eq!(t.to_command(), "trigger right feedback 0 1");
}

#[test]
fn encode_off_both() {
    let t = Trigger { side: "both".to_string(), effect: TriggerEffect::Off };
    assert_eq!(t.to_command(), "trigger both off");
}

#[test]
fn encode_weapon() {
    let t = Trigger {
        side: "left".to_string(),
        effect: TriggerEffect::Weapon { start: 2, stop: 5, strength: 8 },
    };
    assert_eq!(t.to_command(), "trigger left weapon 2 5 8");
}

#[test]
fn encode_bow() {
    let t = Trigger {
        side: "both".to_string(),
        effect: TriggerEffect::Bow { start: 1, stop: 8, strength: 8, snapforce: 1 },
    };
    assert_eq!(t.to_command(), "trigger both bow 1 8 8 1");
}

#[test]
fn encode_galloping() {
    let t = Trigger {
        side: "both".to_string(),
        effect: TriggerEffect::Galloping {
            start: 0,
            stop: 9,
            first_foot: 1,
            second_foot: 3,
            frequency: 1,
        },
    };
    assert_eq!(t.to_command(), "trigger both galloping 0 9 1 3 1");
}

#[test]
fn encode_machine() {
    let t = Trigger {
        side: "both".to_string(),
        effect: TriggerEffect::Machine {
            start: 1,
            stop: 9,
            strength_a: 7,
            strength_b: 0,
            frequency: 100,
            period: 100,
        },
    };
    assert_eq!(t.to_command(), "trigger both machine 1 9 7 0 100 100");
}

#[test]
fn encode_vibration() {
    let t = Trigger {
        side: "both".to_string(),
        effect: TriggerEffect::Vibration { position: 1, amplitude: 8, frequency: 120 },
    };
    assert_eq!(t.to_command(), "trigger both vibration 1 8 120");
}

#[test]
fn encode_feedback_raw_brackets() {
    let t = Trigger {
        side: "both".to_string(),
        effect: TriggerEffect::FeedbackRaw { strength: [0, 8, 0, 8, 0, 8, 0, 8, 0, 8] },
    };
    assert_eq!(t.to_command(), "trigger both feedback-raw [0 8 0 8 0 8 0 8 0 8]");
}

#[test]
fn encode_vibration_raw_brackets() {
    let t = Trigger {
        side: "both".to_string(),
        effect: TriggerEffect::VibrationRaw {
            amplitude: [0, 1, 2, 3, 4, 5, 6, 7, 8, 255],
            frequency: 100,
        },
    };
    assert_eq!(t.to_command(), "trigger both vibration-raw [0 1 2 3 4 5 6 7 8 255] 100");
}

#[test]
fn encode_mode_params_verbatim() {
    let t = Trigger {
        side: "left".to_string(),
        effect: TriggerEffect::Mode {
            params: vec!["255".to_string(), "127".to_string(), "6".to_string()],
        },
    };
    assert_eq!(t.to_command(), "trigger left mode 255 127 6");
}

#[test]
fn encode_mode_empty_params_keeps_trailing_space() {
    let t = Trigger { side: "both".to_string(), effect: TriggerEffect::Mode { params: vec![] } };
    assert_eq!(t.to_command(), "trigger both mode ");
}

#[test]
fn encode_twice_is_byte_identical() {
    let t = Trigger {
        side: "right".to_string(),
        effect: TriggerEffect::Machine {
            start: 1,
            stop: 9,
            strength_a: 7,
            strength_b: 7,
            frequency: 9,
            period: 1,
        },
    };
    assert_eq!(t.to_command(), t.to_command());
}

#[test]
fn decode_weapon_scenario() {
    let parts = toks(&["dualsensectl", "trigger", "left", "weapon", "2", "5", "8"]);
    let expected = Trigger {
        side: "left".to_string(),
        effect: TriggerEffect::Weapon { start: 2, stop: 5, strength: 8 },
    };
    assert_eq!(decode_trigger(&parts), Some(expected));
}

#[test]
fn decode_off() {
    let parts = toks(&["dualsensectl", "trigger", "both", "off"]);
    let expected = Trigger { side: "both".to_string(), effect: TriggerEffect::Off };
    assert_eq!(decode_trigger(&parts), Some(expected));
}

#[test]
fn decode_ignores_extra_tokens() {
    let parts = toks(&["dualsensectl", "trigger", "both", "feedback", "3", "4", "9", "9"]);
    let expected = Trigger {
        side: "both".to_string(),
        effect: TriggerEffect::Feedback { position: 3, strength: 4 },
    };
    assert_eq!(decode_trigger(&parts), Some(expected));
}

#[test]
fn decode_unknown_keyword_is_none() {
    let parts = toks(&["dualsensectl", "trigger", "both", "rumble", "1"]);
    assert_eq!(decode_trigger(&parts), None);
}

#[test]
fn decode_wrong_tool_is_none() {
    let parts = toks(&["othertool", "trigger", "both", "off"]);
    assert_eq!(decode_trigger(&parts), None);
}

#[test]
fn decode_missing_keyword_is_none() {
    let parts = toks(&["dualsensectl", "trigger", "both"]);
    assert_eq!(decode_trigger(&parts), None);
}

#[test]
fn decode_non_numeric_field_becomes_zero() {
    // Decoder leniency: a non-numeric token at a required numeric position
    // yields 0 in that field instead of rejecting the command.
    let parts = toks(&["dualsensectl", "trigger", "left", "weapon", "abc", "5", "8"]);
    let expected = Trigger {
        side: "left".to_string(),
        effect: TriggerEffect::Weapon { start: 0, stop: 5, strength: 8 },
    };
    assert_eq!(decode_trigger(&parts), Some(expected));
}

#[test]
fn decode_out_of_range_field_becomes_zero() {
    // "300" does not fit in a byte, so the lenient parse falls back to 0.
    let parts = toks(&["dualsensectl", "trigger", "left", "feedback", "300", "1"]);
    let expected = Trigger {
        side: "left".to_string(),
        effect: TriggerEffect::Feedback { position: 0, strength: 1 },
    };
    assert_eq!(decode_trigger(&parts), Some(expected));
}

#[test]
fn decode_mode_params_verbatim() {
    let parts = toks(&["dualsensectl", "trigger", "both", "mode", "1", "fast", "3"]);
    let expected = Trigger {
        side: "both".to_string(),
        effect: TriggerEffect::Mode {
            params: vec!["1".to_string(), "fast".to_string(), "3".to_string()],
        },
    };
    assert_eq!(decode_trigger(&parts), Some(expected));
}

#[test]
fn decode_mode_no_params() {
    let parts = toks(&["dualsensectl", "trigger", "both", "mode"]);
    let expected =
        Trigger { side: "both".to_string(), effect: TriggerEffect::Mode { params: vec![] } };
    assert_eq!(decode_trigger(&parts), Some(expected));
}

#[test]
fn decode_feedback_raw_ten_values() {
    let parts = toks(&[
        "dualsensectl",
        "trigger",
        "both",
        "feedback-raw",
        "1",
        "2",
        "8",
        "0",
        "0",
        "1",
        "2",
        "8",
        "0",
        "0",
    ]);
    let expected = Trigger {
        side: "both".to_string(),
        effect: TriggerEffect::FeedbackRaw { strength: [1, 2, 8, 0, 0, 1, 2, 8, 0, 0] },
    };
    assert_eq!(decode_trigger(&parts), Some(expected));
}

#[test]
fn decode_vibration_raw_needs_frequency() {
    // Ten amplitude values but no frequency token: one short of the arity.
    let parts = toks(&[
        "dualsensectl",
        "trigger",
        "both",
        "vibration-raw",
        "0",
        "1",
        "2",
        "3",
        "4",
        "5",
        "6",
        "7",
        "8",
        "9",
    ]);
    assert_eq!(decode_trigger(&parts), None);
}

#[test]
fn decode_galloping_short_arity_is_none() {
    let parts = toks(&["dualsensectl", "trigger", "both", "galloping", "0", "9", "1", "3"]);
    assert_eq!(decode_trigger(&parts), None);
}

#[test]
fn round_trip_every_variant() {
    let effects = vec![
        TriggerEffect::Off,
        TriggerEffect::Feedback { position: 9, strength: 8 },
        TriggerEffect::Weapon { start: 2, stop: 8, strength: 1 },
        TriggerEffect::Bow { start: 1, stop: 8, strength: 8, snapforce: 8 },
        TriggerEffect::Galloping {
            start: 0,
            stop: 9,
            first_foot: 2,
            second_foot: 3,
            frequency: 2,
        },
        TriggerEffect::Machine {
            start: 1,
            stop: 9,
            strength_a: 7,
            strength_b: 0,
            frequency: 18,
            period: 12,
        },
        TriggerEffect::Vibration { position: 1, amplitude: 8, frequency: 1 },
        TriggerEffect::FeedbackRaw { strength: [0, 1, 2, 3, 4, 5, 6, 7, 8, 0] },
        TriggerEffect::VibrationRaw { amplitude: [0, 0, 0, 0, 5, 8, 5, 0, 0, 0], frequency: 25 },
        TriggerEffect::Mode { params: vec!["12".to_string(), "200".to_string()] },
        TriggerEffect::Mode { params: vec![] },
    ];
    for effect in effects {
        for side in ["left", "right", "both"] {
            let t = Trigger { side: side.to_string(), effect: effect.clone() };
            let command = format!("dualsensectl {}", t.to_command());
            let parts = tokenize(&command);
            assert_eq!(decode_trigger(&parts), Some(t.clone()));
        }
    }
}

#[test]
fn apply_updates_only_the_trigger() {
    let mut controller = Controller::default();
    controller.volume = 42;
    controller.playerleds = 3;
    let parts = toks(&["dualsensectl", "trigger", "right", "feedback", "5", "8"]);
    assert!(apply_trigger_command(&mut controller, &parts));
    assert_eq!(
        controller.trigger,
        Trigger {
            side: "right".to_string(),
            effect: TriggerEffect::Feedback { position: 5, strength: 8 },
        }
    );
    assert_eq!(controller.volume, 42);
    assert_eq!(controller.playerleds, 3);
    assert_eq!(controller.lightbar_colour, vec![255, 255, 255, 255]);
}

#[test]
fn apply_short_raw_array_leaves_state_unchanged() {
    // Nine values instead of ten: the decoder refuses the command and the
    // snapshot keeps its previous trigger.
    let mut controller = Controller::default();
    let before = controller.clone();
    let parts = toks(&[
        "dualsensectl",
        "trigger",
        "both",
        "feedback-raw",
        "1",
        "2",
        "3",
        "4",
        "5",
        "6",
        "7",
        "8",
        "0",
    ]);
    assert!(!apply_trigger_command(&mut controller, &parts));
    assert_eq!(controller, before);
}

#[test]
fn apply_unrecognised_command_leaves_state_unchanged() {
    let mut controller = Controller::default();
    let before = controller.clone();
    let parts = toks(&["dualsensectl", "lightbar", "off"]);
    assert!(!apply_trigger_command(&mut controller, &parts));
    assert_eq!(controller, before);
}
