//! The canned trigger presets: ready-made commands for the external tool,
//! grouped by mode, each with a display name and a description.

use vstd::prelude::*;

verus! {

/// A canned command with its display name, description and category.
#[derive(Debug, Clone)]
pub struct Preset {
    pub name: &'static str,
    pub description: &'static str,
    pub command: &'static str,
    pub category: &'static str,
}

/// The mathematical content of one preset.
pub struct PresetEntry {
    pub name: Seq<char>,
    pub description: Seq<char>,
    pub command: Seq<char>,
    pub category: Seq<char>,
}

/// Whether a built preset carries exactly the modelled preset.
pub open spec fn preset_matches(p: Preset, m: PresetEntry) -> bool {
    p.name@ == m.name && p.description@ == m.description && p.command@ == m.command && p.category@
        == m.category
}

/// The preset table, in display order: feedback, weapon, bow, galloping,
/// machine, vibration, the raw curves, and off.
pub open spec fn preset_table() -> Seq<PresetEntry> {
    seq![
        PresetEntry {
            name: "Right Trigger Constant Resistance"@,
            description: "Give a slight constant resistance to the right trigger from the beginning of the course."@,
            command: "dualsensectl trigger right feedback 0 1"@,
            category: "Feedback Mode"@,
        },
        PresetEntry {
            name: "Left Trigger End Resistance"@,
            description: "Give a slight constant resistance to the left trigger from the end of the course."@,
            command: "dualsensectl trigger left feedback 9 1"@,
            category: "Feedback Mode"@,
        },
        PresetEntry {
            name: "Both Triggers Strong Mid Resistance"@,
            description: "Give a strong constant resistance to both triggers midway."@,
            command: "dualsensectl trigger both feedback 5 8"@,
            category: "Feedback Mode"@,
        },
        PresetEntry {
            name: "Weapon Strong Start"@,
            description: "Strongly resist at the beginning of the course and stop resisting almost immediately."@,
            command: "dualsensectl trigger both weapon 2 3 8"@,
            category: "Weapon Mode"@,
        },
        PresetEntry {
            name: "Weapon Full Range"@,
            description: "Strongly resist at the beginning of the course and stop resisting at the end of the course."@,
            command: "dualsensectl trigger both weapon 2 8 8"@,
            category: "Weapon Mode"@,
        },
        PresetEntry {
            name: "Weapon Midway"@,
            description: "Slightly resist at the beginning of the course and stop resisting midway."@,
            command: "dualsensectl trigger both weapon 2 5 1"@,
            category: "Weapon Mode"@,
        },
        PresetEntry {
            name: "Bow Strong Snap"@,
            description: "Strongly resist at the beginning and snap back strongly when released."@,
            command: "dualsensectl trigger both bow 1 8 8 8"@,
            category: "Bow Mode"@,
        },
        PresetEntry {
            name: "Bow Soft Snap"@,
            description: "Strongly resist at the beginning and snap back slightly when released."@,
            command: "dualsensectl trigger both bow 1 8 8 1"@,
            category: "Bow Mode"@,
        },
        PresetEntry {
            name: "Galloping Heartbeat"@,
            description: "Feel a heartbeat whenever the trigger is pressed."@,
            command: "dualsensectl trigger both galloping 0 9 1 3 1"@,
            category: "Galloping Mode"@,
        },
        PresetEntry {
            name: "Galloping Horse"@,
            description: "Feel like a galloping horse whenever the trigger is pressed."@,
            command: "dualsensectl trigger both galloping 0 9 2 3 2"@,
            category: "Galloping Mode"@,
        },
        PresetEntry {
            name: "Machine Calm"@,
            description: "Vibrate strongly, calm down, and then return to vibrating strongly during the trigger course."@,
            command: "dualsensectl trigger both machine 1 9 7 0 100 100"@,
            category: "Machine Mode"@,
        },
        PresetEntry {
            name: "Machine Gun"@,
            description: "Feel like a machine gun during the entire trigger course."@,
            command: "dualsensectl trigger both machine 1 9 7 7 9 1"@,
            category: "Machine Mode"@,
        },
        PresetEntry {
            name: "Machine Gun Burst"@,
            description: "Feel bursts of machine gun vibrations during the trigger course."@,
            command: "dualsensectl trigger both machine 1 9 7 0 18 12"@,
            category: "Machine Mode"@,
        },
        PresetEntry {
            name: "Vibration 60Hz"@,
            description: "Slightly vibrate at 60Hz from the beginning of the course."@,
            command: "dualsensectl trigger both vibration 1 1 60"@,
            category: "Vibration Mode"@,
        },
        PresetEntry {
            name: "Vibration 120Hz"@,
            description: "Strongly vibrate at 120Hz from the beginning of the course."@,
            command: "dualsensectl trigger both vibration 1 8 120"@,
            category: "Vibration Mode"@,
        },
        PresetEntry {
            name: "Giant Clock"@,
            description: "Feel like you are holding a giant clock with vibrations at 1Hz."@,
            command: "dualsensectl trigger both vibration 1 8 1"@,
            category: "Vibration Mode"@,
        },
        PresetEntry {
            name: "Feedback Double Tap"@,
            description: "Resistance at the beginning, stops, and then resistance again midway."@,
            command: "dualsensectl trigger both feedback-raw 1 2 8 0 0 1 2 8 0 0"@,
            category: "Feedback-raw Mode"@,
        },
        PresetEntry {
            name: "Rusty Trigger"@,
            description: "Simulate a rusty trigger with varying resistances."@,
            command: "dualsensectl trigger both feedback-raw 0 8 0 8 0 8 0 8 0 8"@,
            category: "Feedback-raw Mode"@,
        },
        PresetEntry {
            name: "Feedback Harder Press"@,
            description: "The more you press, the harder the resistance, until the last position."@,
            command: "dualsensectl trigger both feedback-raw 0 1 2 3 4 5 6 7 8 0"@,
            category: "Feedback-raw Mode"@,
        },
        PresetEntry {
            name: "Vibration Increase"@,
            description: "The more you press, the more you feel the vibration at 100Hz."@,
            command: "dualsensectl trigger both vibration-raw 0 1 2 3 4 5 6 7 8 8 100"@,
            category: "Vibration-raw Mode"@,
        },
        PresetEntry {
            name: "Midway Vibration"@,
            description: "Feel vibration at 25Hz only when the trigger is around midway."@,
            command: "dualsensectl trigger both vibration-raw 0 0 0 0 5 8 5 0 0 0 25"@,
            category: "Vibration-raw Mode"@,
        },
        PresetEntry {
            name: "Disable Feedback"@,
            description: "Disable all vibrations and resistances."@,
            command: "dualsensectl trigger both off"@,
            category: "Off Mode"@,
        },
    ]
}

/// The canned presets, exactly mirroring `preset_table`, row for row.
pub fn get_presets() -> (r: Vec<Preset>)
    ensures
        r@.len() == preset_table().len(),
        forall|i: int| 0 <= i < r@.len() ==> preset_matches(#[trigger] r@[i], preset_table()[i]),
{
    let mut presets: Vec<Preset> = Vec::new();
    presets.push(
        Preset {
            name: "Right Trigger Constant Resistance",
            description: "Give a slight constant resistance to the right trigger from the beginning of the course.",
            command: "dualsensectl trigger right feedback 0 1",
            category: "Feedback Mode",
        },
    );
    presets.push(
        Preset {
            name: "Left Trigger End Resistance",
            description: "Give a slight constant resistance to the left trigger from the end of the course.",
            command: "dualsensectl trigger left feedback 9 1",
            category: "Feedback Mode",
        },
    );
    presets.push(
        Preset {
            name: "Both Triggers Strong Mid Resistance",
            description: "Give a strong constant resistance to both triggers midway.",
            command: "dualsensectl trigger both feedback 5 8",
            category: "Feedback Mode",
        },
    );
    presets.push(
        Preset {
            name: "Weapon Strong Start",
            description: "Strongly resist at the beginning of the course and stop resisting almost immediately.",
            command: "dualsensectl trigger both weapon 2 3 8",
            category: "Weapon Mode",
        },
    );
    presets.push(
        Preset {
            name: "Weapon Full Range",
            description: "Strongly resist at the beginning of the course and stop resisting at the end of the course.",
            command: "dualsensectl trigger both weapon 2 8 8",
            category: "Weapon Mode",
        },
    );
    presets.push(
        Preset {
            name: "Weapon Midway",
            description: "Slightly resist at the beginning of the course and stop resisting midway.",
            command: "dualsensectl trigger both weapon 2 5 1",
            category: "Weapon Mode",
        },
    );
    presets.push(
        Preset {
            name: "Bow Strong Snap",
            description: "Strongly resist at the beginning and snap back strongly when released.",
            command: "dualsensectl trigger both bow 1 8 8 8",
            category: "Bow Mode",
        },
    );
    presets.push(
        Preset {
            name: "Bow Soft Snap",
            description: "Strongly resist at the beginning and snap back slightly when released.",
            command: "dualsensectl trigger both bow 1 8 8 1",
            category: "Bow Mode",
        },
    );
    presets.push(
        Preset {
            name: "Galloping Heartbeat",
            description: "Feel a heartbeat whenever the trigger is pressed.",
            command: "dualsensectl trigger both galloping 0 9 1 3 1",
            category: "Galloping Mode",
        },
    );
    presets.push(
        Preset {
            name: "Galloping Horse",
            description: "Feel like a galloping horse whenever the trigger is pressed.",
            command: "dualsensectl trigger both galloping 0 9 2 3 2",
            category: "Galloping Mode",
        },
    );
    presets.push(
        Preset {
            name: "Machine Calm",
            description: "Vibrate strongly, calm down, and then return to vibrating strongly during the trigger course.",
            command: "dualsensectl trigger both machine 1 9 7 0 100 100",
            category: "Machine Mode",
        },
    );
    presets.push(
        Preset {
            name: "Machine Gun",
            description: "Feel like a machine gun during the entire trigger course.",
            command: "dualsensectl trigger both machine 1 9 7 7 9 1",
            category: "Machine Mode",
        },
    );
    presets.push(
        Preset {
            name: "Machine Gun Burst",
            description: "Feel bursts of machine gun vibrations during the trigger course.",
            command: "dualsensectl trigger both machine 1 9 7 0 18 12",
            category: "Machine Mode",
        },
    );
    presets.push(
        Preset {
            name: "Vibration 60Hz",
            description: "Slightly vibrate at 60Hz from the beginning of the course.",
            command: "dualsensectl trigger both vibration 1 1 60",
            category: "Vibration Mode",
        },
    );
    presets.push(
        Preset {
            name: "Vibration 120Hz",
            description: "Strongly vibrate at 120Hz from the beginning of the course.",
            command: "dualsensectl trigger both vibration 1 8 120",
            category: "Vibration Mode",
        },
    );
    presets.push(
        Preset {
            name: "Giant Clock",
            description: "Feel like you are holding a giant clock with vibrations at 1Hz.",
            command: "dualsensectl trigger both vibration 1 8 1",
            category: "Vibration Mode",
        },
    );
    presets.push(
        Preset {
            name: "Feedback Double Tap",
            description: "Resistance at the beginning, stops, and then resistance again midway.",
            command: "dualsensectl trigger both feedback-raw 1 2 8 0 0 1 2 8 0 0",
            category: "Feedback-raw Mode",
        },
    );
    presets.push(
        Preset {
            name: "Rusty Trigger",
            description: "Simulate a rusty trigger with varying resistances.",
            command: "dualsensectl trigger both feedback-raw 0 8 0 8 0 8 0 8 0 8",
            category: "Feedback-raw Mode",
        },
    );
    presets.push(
        Preset {
            name: "Feedback Harder Press",
            description: "The more you press, the harder the resistance, until the last position.",
            command: "dualsensectl trigger both feedback-raw 0 1 2 3 4 5 6 7 8 0",
            category: "Feedback-raw Mode",
        },
    );
    presets.push(
        Preset {
            name: "Vibration Increase",
            description: "The more you press, the more you feel the vibration at 100Hz.",
            command: "dualsensectl trigger both vibration-raw 0 1 2 3 4 5 6 7 8 8 100",
            category: "Vibration-raw Mode",
        },
    );
    presets.push(
        Preset {
            name: "Midway Vibration",
            description: "Feel vibration at 25Hz only when the trigger is around midway.",
            command: "dualsensectl trigger both vibration-raw 0 0 0 0 5 8 5 0 0 0 25",
            category: "Vibration-raw Mode",
        },
    );
    presets.push(
        Preset {
            name: "Disable Feedback",
            description: "Disable all vibrations and resistances.",
            command: "dualsensectl trigger both off",
            category: "Off Mode",
        },
    );
    proof {
        assert forall|i: int| 0 <= i < presets@.len() implies preset_matches(
            #[trigger] presets@[i],
            preset_table()[i],
        ) by {
            assert(0 <= i < 22);
        }
    }
    presets
}

} // verus!
