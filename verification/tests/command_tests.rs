//! Tests for the per-control command builders, their validation, and the
//! snapshot mutations paired with them.

use dualsensectl_gui::commands::{
    apply_attenuation, apply_battery, apply_lightbar_colour, apply_lightbar_toggle,
    apply_microphone_led_toggle, apply_microphone_toggle, apply_playerleds, apply_speaker,
    apply_volume, attenuation_command, battery_report_string, full_trigger_command,
    lightbar_colour_command, lightbar_command, microphone_command, microphone_led_command,
    parse_battery_report, playerleds_command, speaker_command, volume_command,
};
use dualsensectl_gui::structs::{Controller, Speaker, Trigger, TriggerEffect};

#[test]
fn lightbar_on_uses_snapshot_colour() {
    let mut controller = Controller::default();
    controller.lightbar_colour = vec![10, 20, 30, 200];
    assert_eq!(lightbar_command(true, &controller), "dualsensectl lightbar 10 20 30 200");
}

#[test]
fn lightbar_off_is_fixed() {
    let controller = Controller::default();
    assert_eq!(lightbar_command(false, &controller), "dualsensectl lightbar off");
}

#[test]
fn lightbar_toggle_records_state() {
    let mut controller = Controller::default();
    apply_lightbar_toggle(&mut controller, false);
    assert!(!controller.lightbar_enabled);
    apply_lightbar_toggle(&mut controller, true);
    assert!(controller.lightbar_enabled);
}

#[test]
fn playerleds_range() {
    assert_eq!(playerleds_command(0).as_deref(), Some("dualsensectl player-leds 0"));
    assert_eq!(playerleds_command(5).as_deref(), Some("dualsensectl player-leds 5"));
    assert_eq!(playerleds_command(6), None);
}

#[test]
fn playerleds_apply() {
    let mut controller = Controller::default();
    apply_playerleds(&mut controller, 4);
    assert_eq!(controller.playerleds, 4);
}

#[test]
fn lightbar_colour_needs_four_values() {
    assert_eq!(
        lightbar_colour_command(&vec![255, 0, 0, 128]).as_deref(),
        Some("dualsensectl lightbar 255 0 0 128")
    );
    assert_eq!(lightbar_colour_command(&vec![255, 0, 0]), None);
    assert_eq!(lightbar_colour_command(&vec![1, 2, 3, 4, 5]), None);
}

#[test]
fn lightbar_colour_apply_enables() {
    let mut controller = Controller::default();
    controller.lightbar_enabled = false;
    apply_lightbar_colour(&mut controller, vec![1, 2, 3, 4]);
    assert_eq!(controller.lightbar_colour, vec![1, 2, 3, 4]);
    assert!(controller.lightbar_enabled);
}

#[test]
fn speaker_commands() {
    assert_eq!(speaker_command(&Speaker::Internal), "dualsensectl speaker internal");
    assert_eq!(speaker_command(&Speaker::Headphone), "dualsensectl speaker headphone");
    assert_eq!(speaker_command(&Speaker::Monoheadphone), "dualsensectl speaker monoheadphone");
    assert_eq!(speaker_command(&Speaker::Both), "dualsensectl speaker both");
}

#[test]
fn speaker_apply() {
    let mut controller = Controller::default();
    apply_speaker(&mut controller, Speaker::Both);
    assert_eq!(controller.speaker, Speaker::Both);
}

#[test]
fn microphone_toggles_away_from_current_state() {
    let mut controller = Controller::default();
    assert_eq!(microphone_command(&controller), "dualsensectl microphone on");
    apply_microphone_toggle(&mut controller);
    assert!(controller.microphone);
    assert_eq!(microphone_command(&controller), "dualsensectl microphone off");
}

#[test]
fn microphone_led_toggles_away_from_current_state() {
    let mut controller = Controller::default();
    assert_eq!(microphone_led_command(&controller), "dualsensectl microphone-led on");
    apply_microphone_led_toggle(&mut controller);
    assert!(controller.microphone_led);
    assert_eq!(microphone_led_command(&controller), "dualsensectl microphone-led off");
}

#[test]
fn volume_command_and_apply() {
    assert_eq!(volume_command(0), "dualsensectl volume 0");
    assert_eq!(volume_command(255), "dualsensectl volume 255");
    let mut controller = Controller::default();
    apply_volume(&mut controller, 150);
    assert_eq!(controller.volume, 150);
}

#[test]
fn attenuation_range() {
    assert_eq!(attenuation_command(&vec![0, 7]).as_deref(), Some("dualsensectl attenuation 0 7"));
    assert_eq!(attenuation_command(&vec![8, 0]), None);
    assert_eq!(attenuation_command(&vec![0, 8]), None);
}

#[test]
fn attenuation_apply() {
    let mut controller = Controller::default();
    apply_attenuation(&mut controller, vec![3, 4]);
    assert_eq!(controller.attenuation, vec![3, 4]);
}

#[test]
fn full_trigger_command_prefixes_tool_name() {
    let t = Trigger {
        side: "both".to_string(),
        effect: TriggerEffect::Feedback { position: 5, strength: 8 },
    };
    assert_eq!(full_trigger_command(&t), "dualsensectl trigger both feedback 5 8");
}

#[test]
fn battery_report_takes_first_token() {
    assert_eq!(parse_battery_report("85 [charging]"), 85);
    assert_eq!(parse_battery_report("  100\n"), 100);
    assert_eq!(parse_battery_report("abc"), 0);
    assert_eq!(parse_battery_report(""), 0);
    assert_eq!(parse_battery_report("300"), 0);
}

#[test]
fn battery_report_display() {
    assert_eq!(battery_report_string(85), "85%");
    assert_eq!(battery_report_string(0), "0%");
}

#[test]
fn battery_apply() {
    let mut controller = Controller::default();
    apply_battery(&mut controller, 61);
    assert_eq!(controller.battery_percentage, 61);
}

#[test]
fn default_controller_matches_documented_values() {
    let controller = Controller::default();
    assert_eq!(controller.lightbar_colour, vec![255, 255, 255, 255]);
    assert!(controller.lightbar_enabled);
    assert_eq!(controller.battery_percentage, 100);
    assert_eq!(controller.playerleds, 1);
    assert!(!controller.microphone);
    assert!(!controller.microphone_led);
    assert_eq!(controller.speaker, Speaker::Internal);
    assert_eq!(controller.volume, 0);
    assert_eq!(controller.attenuation, vec![0, 0]);
    assert_eq!(
        controller.trigger,
        Trigger { side: "both".to_string(), effect: TriggerEffect::Off }
    );
}
