//! Builders for the full command lines of the external `dualsensectl` tool,
//! one per device control, each paired with the snapshot mutation applied
//! once the command has executed successfully. Inputs the tool would reject
//! are refused here, before any command is built.

use vstd::prelude::*;

verus! {

use vstd::string::*;
use crate::structs::{Controller, ControllerModel, Speaker, Trigger, encode_chars};
use crate::text::{dec_rep, join_sp, parse_u8_spec, push_sep, split_ws, u8_to_decimal};
use crate::text::{lemma_join3, lemma_join4, lemma_join6, parse_u8_str, tokenize};

/// The lightbar command: the four colour bytes when switching on, `off`
/// when switching off.
pub open spec fn lightbar_command_chars(state: bool, c: ControllerModel) -> Seq<char> {
    if state {
        join_sp(
            seq![
                "dualsensectl"@,
                "lightbar"@,
                dec_rep(c.lightbar_colour[0] as nat),
                dec_rep(c.lightbar_colour[1] as nat),
                dec_rep(c.lightbar_colour[2] as nat),
                dec_rep(c.lightbar_colour[3] as nat),
            ],
        )
    } else {
        "dualsensectl lightbar off"@
    }
}

/// The command that switches the lightbar on, restoring the snapshot's
/// colour, or off.
pub fn lightbar_command(state: bool, controller: &Controller) -> (r: String)
    requires
        state ==> controller@.lightbar_colour.len() == 4,
    ensures
        r@ == lightbar_command_chars(state, controller@),
{
    if state {
        let mut s = String::from_str("dualsensectl");
        push_sep(&mut s);
        s.append("lightbar");
        let d0 = u8_to_decimal(controller.lightbar_colour[0]);
        push_sep(&mut s);
        s.append(d0.as_str());
        let d1 = u8_to_decimal(controller.lightbar_colour[1]);
        push_sep(&mut s);
        s.append(d1.as_str());
        let d2 = u8_to_decimal(controller.lightbar_colour[2]);
        push_sep(&mut s);
        s.append(d2.as_str());
        let d3 = u8_to_decimal(controller.lightbar_colour[3]);
        push_sep(&mut s);
        s.append(d3.as_str());
        proof {
            lemma_join6("dualsensectl"@, "lightbar"@, d0@, d1@, d2@, d3@);
            assert(s@ =~= lightbar_command_chars(state, controller@));
        }
        s
    } else {
        String::from_str("dualsensectl lightbar off")
    }
}

/// Records that the lightbar was switched on or off.
pub fn apply_lightbar_toggle(controller: &mut Controller, state: bool)
    ensures
        final(controller)@ == (ControllerModel { lightbar_enabled: state, ..old(controller)@ }),
{
    controller.lightbar_enabled = state;
}

/// The player-LED command, refused for counts above five — the device has
/// five LEDs.
pub fn playerleds_command(state: u8) -> (r: Option<String>)
    ensures
        match r {
            Some(s) => state <= 5 && s@ == join_sp(
                seq!["dualsensectl"@, "player-leds"@, dec_rep(state as nat)],
            ),
            None => state > 5,
        },
{
    if state > 5 {
        return None;
    }
    let mut s = String::from_str("dualsensectl");
    push_sep(&mut s);
    s.append("player-leds");
    let d = u8_to_decimal(state);
    push_sep(&mut s);
    s.append(d.as_str());
    proof {
        lemma_join3("dualsensectl"@, "player-leds"@, d@);
        assert(s@ =~= join_sp(seq!["dualsensectl"@, "player-leds"@, dec_rep(state as nat)]));
    }
    Some(s)
}

/// Records the player-LED count after the command succeeded.
pub fn apply_playerleds(controller: &mut Controller, state: u8)
    requires
        state <= 5,
    ensures
        final(controller)@ == (ControllerModel { playerleds: state, ..old(controller)@ }),
{
    controller.playerleds = state;
}

/// The lightbar colour command, refused unless exactly red, green, blue and
/// brightness are supplied.
pub fn lightbar_colour_command(state: &Vec<u8>) -> (r: Option<String>)
    ensures
        match r {
            Some(s) => state@.len() == 4 && s@ == join_sp(
                seq![
                    "dualsensectl"@,
                    "lightbar"@,
                    dec_rep(state@[0] as nat),
                    dec_rep(state@[1] as nat),
                    dec_rep(state@[2] as nat),
                    dec_rep(state@[3] as nat),
                ],
            ),
            None => state@.len() != 4,
        },
{
    if state.len() != 4 {
        return None;
    }
    let mut s = String::from_str("dualsensectl");
    push_sep(&mut s);
    s.append("lightbar");
    let d0 = u8_to_decimal(state[0]);
    push_sep(&mut s);
    s.append(d0.as_str());
    let d1 = u8_to_decimal(state[1]);
    push_sep(&mut s);
    s.append(d1.as_str());
    let d2 = u8_to_decimal(state[2]);
    push_sep(&mut s);
    s.append(d2.as_str());
    let d3 = u8_to_decimal(state[3]);
    push_sep(&mut s);
    s.append(d3.as_str());
    proof {
        lemma_join6("dualsensectl"@, "lightbar"@, d0@, d1@, d2@, d3@);
        assert(s@ =~= join_sp(
            seq![
                "dualsensectl"@,
                "lightbar"@,
                dec_rep(state@[0] as nat),
                dec_rep(state@[1] as nat),
                dec_rep(state@[2] as nat),
                dec_rep(state@[3] as nat),
            ],
        ));
    }
    Some(s)
}

/// Records the new lightbar colour; setting a colour also switches the
/// lightbar on.
pub fn apply_lightbar_colour(controller: &mut Controller, state: Vec<u8>)
    requires
        state@.len() == 4,
    ensures
        final(controller)@ == (ControllerModel {
            lightbar_colour: state@,
            lightbar_enabled: true,
            ..old(controller)@
        }),
{
    controller.lightbar_colour = state;
    controller.lightbar_enabled = true;
}

/// The speaker routing keyword of each mode.
pub open spec fn speaker_command_chars(state: Speaker) -> Seq<char> {
    match state {
        Speaker::Internal => "dualsensectl speaker internal"@,
        Speaker::Headphone => "dualsensectl speaker headphone"@,
        Speaker::Monoheadphone => "dualsensectl speaker monoheadphone"@,
        Speaker::Both => "dualsensectl speaker both"@,
    }
}

/// The speaker routing command.
pub fn speaker_command(state: &Speaker) -> (r: String)
    ensures
        r@ == speaker_command_chars(*state),
{
    match state {
        Speaker::Internal => String::from_str("dualsensectl speaker internal"),
        Speaker::Headphone => String::from_str("dualsensectl speaker headphone"),
        Speaker::Monoheadphone => String::from_str("dualsensectl speaker monoheadphone"),
        Speaker::Both => String::from_str("dualsensectl speaker both"),
    }
}

/// Records the speaker routing after the command succeeded.
pub fn apply_speaker(controller: &mut Controller, state: Speaker)
    ensures
        final(controller)@ == (ControllerModel { speaker: state, ..old(controller)@ }),
{
    controller.speaker = state;
}

/// The microphone command that toggles away from the snapshot's current
/// state: `off` when the microphone is on, `on` when it is off.
pub open spec fn microphone_command_chars(c: ControllerModel) -> Seq<char> {
    if c.microphone {
        "dualsensectl microphone off"@
    } else {
        "dualsensectl microphone on"@
    }
}

/// The microphone toggle command.
pub fn microphone_command(controller: &Controller) -> (r: String)
    ensures
        r@ == microphone_command_chars(controller@),
{
    if controller.microphone {
        String::from_str("dualsensectl microphone off")
    } else {
        String::from_str("dualsensectl microphone on")
    }
}

/// Records the microphone toggle after the command succeeded.
pub fn apply_microphone_toggle(controller: &mut Controller)
    ensures
        final(controller)@ == (ControllerModel {
            microphone: !old(controller)@.microphone,
            ..old(controller)@
        }),
{
    controller.microphone = !controller.microphone;
}

/// The microphone-LED command that toggles away from the snapshot's current
/// state.
pub open spec fn microphone_led_command_chars(c: ControllerModel) -> Seq<char> {
    if c.microphone_led {
        "dualsensectl microphone-led off"@
    } else {
        "dualsensectl microphone-led on"@
    }
}

/// The microphone-LED toggle command.
pub fn microphone_led_command(controller: &Controller) -> (r: String)
    ensures
        r@ == microphone_led_command_chars(controller@),
{
    if controller.microphone_led {
        String::from_str("dualsensectl microphone-led off")
    } else {
        String::from_str("dualsensectl microphone-led on")
    }
}

/// Records the microphone-LED toggle after the command succeeded.
pub fn apply_microphone_led_toggle(controller: &mut Controller)
    ensures
        final(controller)@ == (ControllerModel {
            microphone_led: !old(controller)@.microphone_led,
            ..old(controller)@
        }),
{
    controller.microphone_led = !controller.microphone_led;
}

/// The speaker volume command; every byte value is a legal volume.
pub fn volume_command(volume: u8) -> (r: String)
    ensures
        r@ == join_sp(seq!["dualsensectl"@, "volume"@, dec_rep(volume as nat)]),
{
    let mut s = String::from_str("dualsensectl");
    push_sep(&mut s);
    s.append("volume");
    let d = u8_to_decimal(volume);
    push_sep(&mut s);
    s.append(d.as_str());
    proof {
        lemma_join3("dualsensectl"@, "volume"@, d@);
        assert(s@ =~= join_sp(seq!["dualsensectl"@, "volume"@, dec_rep(volume as nat)]));
    }
    s
}

/// Records the volume after the command succeeded.
pub fn apply_volume(controller: &mut Controller, volume: u8)
    ensures
        final(controller)@ == (ControllerModel { volume, ..old(controller)@ }),
{
    controller.volume = volume;
}

/// The attenuation command, taking the rumble and trigger levels; both run
/// from zero to seven, and anything higher is refused.
pub fn attenuation_command(attenuation: &Vec<u8>) -> (r: Option<String>)
    requires
        attenuation@.len() == 2,
    ensures
        match r {
            Some(s) => attenuation@[0] <= 7 && attenuation@[1] <= 7 && s@ == join_sp(
                seq![
                    "dualsensectl"@,
                    "attenuation"@,
                    dec_rep(attenuation@[0] as nat),
                    dec_rep(attenuation@[1] as nat),
                ],
            ),
            None => attenuation@[0] > 7 || attenuation@[1] > 7,
        },
{
    if attenuation[0] > 7 || attenuation[1] > 7 {
        return None;
    }
    let mut s = String::from_str("dualsensectl");
    push_sep(&mut s);
    s.append("attenuation");
    let d0 = u8_to_decimal(attenuation[0]);
    push_sep(&mut s);
    s.append(d0.as_str());
    let d1 = u8_to_decimal(attenuation[1]);
    push_sep(&mut s);
    s.append(d1.as_str());
    proof {
        lemma_join4("dualsensectl"@, "attenuation"@, d0@, d1@);
        assert(s@ =~= join_sp(
            seq![
                "dualsensectl"@,
                "attenuation"@,
                dec_rep(attenuation@[0] as nat),
                dec_rep(attenuation@[1] as nat),
            ],
        ));
    }
    Some(s)
}

/// Records the attenuation pair after the command succeeded.
pub fn apply_attenuation(controller: &mut Controller, attenuation: Vec<u8>)
    requires
        attenuation@.len() == 2,
        attenuation@[0] <= 7,
        attenuation@[1] <= 7,
    ensures
        final(controller)@ == (ControllerModel {
            attenuation: attenuation@,
            ..old(controller)@
        }),
{
    controller.attenuation = attenuation;
}

/// The full command line for a trigger: the tool's name followed by the
/// trigger's own command string.
pub fn full_trigger_command(trigger: &Trigger) -> (r: String)
    ensures
        r@ == "dualsensectl "@ + encode_chars(trigger@),
{
    let mut s = String::from_str("dualsensectl ");
    let cmd = trigger.to_command();
    s.append(cmd.as_str());
    s
}

/// What the battery report reads from the tool's output: the first
/// whitespace token parsed as a byte percentage, zero when there is no such
/// token or it does not parse.
pub open spec fn battery_percent_spec(s: Seq<char>) -> u8 {
    if split_ws(s).len() == 0 {
        0
    } else {
        match parse_u8_spec(split_ws(s)[0]) {
            Some(v) => v,
            None => 0,
        }
    }
}

/// Reads the battery percentage from the tool's standard output.
pub fn parse_battery_report(stdout: &str) -> (r: u8)
    ensures
        r == battery_percent_spec(stdout@),
{
    let toks = tokenize(stdout);
    if toks.len() == 0 {
        return 0;
    }
    proof {
        assert(toks.deep_view()[0] == toks@[0]@);
    }
    match parse_u8_str(toks[0].as_str()) {
        Some(v) => v,
        None => 0,
    }
}

/// Renders a battery percentage for display, as the decimal value followed
/// by a percent sign.
pub fn battery_report_string(percentage: u8) -> (r: String)
    ensures
        r@ == dec_rep(percentage as nat) + "%"@,
{
    let mut s = u8_to_decimal(percentage);
    s.append("%");
    s
}

/// Records the battery percentage after a report succeeded.
pub fn apply_battery(controller: &mut Controller, percentage: u8)
    ensures
        final(controller)@ == (ControllerModel {
            battery_percentage: percentage,
            ..old(controller)@
        }),
{
    controller.battery_percentage = percentage;
}

} // verus!
