//! The controller snapshot and the haptic trigger model, together with the
//! command encoder that renders a trigger into the exact argument string the
//! external `dualsensectl` tool expects.

use vstd::prelude::*;

verus! {

use vstd::string::*;
use crate::text::{dec_rep, join_sp, lemma_join_push, lemma_join_extend_last};
use crate::text::{lemma_join3, lemma_join5, lemma_join6, lemma_join7, lemma_join8, lemma_join9};
use crate::text::{push_sep, u8_to_decimal};

/// Speaker routing. The device routes audio to its internal speaker, the
/// headphone jack, the left headphone channel only, or both outputs.
#[derive(Debug, Clone, PartialEq, Eq)]
pub enum Speaker {
    Internal,
    Headphone,
    Monoheadphone,
    Both,
}

/// The haptic trigger modes. Exactly one is active per trigger; numeric
/// fields are bytes, and the raw variants always carry exactly ten values,
/// one per decile of the trigger's travel.
#[derive(Debug, Clone, PartialEq, Eq)]
pub enum TriggerEffect {
    Off,
    Feedback { position: u8, strength: u8 },
    Weapon { start: u8, stop: u8, strength: u8 },
    Bow { start: u8, stop: u8, strength: u8, snapforce: u8 },
    Galloping { start: u8, stop: u8, first_foot: u8, second_foot: u8, frequency: u8 },
    Machine { start: u8, stop: u8, strength_a: u8, strength_b: u8, frequency: u8, period: u8 },
    Vibration { position: u8, amplitude: u8, frequency: u8 },
    FeedbackRaw { strength: [u8; 10] },
    VibrationRaw { amplitude: [u8; 10], frequency: u8 },
    Mode { params: Vec<String> },
}

/// A trigger effect aimed at a side: `left`, `right` or `both`.
#[derive(Debug, Clone, PartialEq, Eq)]
pub struct Trigger {
    pub side: String,
    pub effect: TriggerEffect,
}

/// The full persisted device snapshot.
#[derive(Debug, Clone, PartialEq, Eq)]
pub struct Controller {
    pub lightbar_colour: Vec<u8>,
    pub lightbar_enabled: bool,
    pub battery_percentage: u8,
    pub playerleds: u8,
    pub microphone: bool,
    pub microphone_led: bool,
    pub speaker: Speaker,
    pub volume: u8,
    pub attenuation: Vec<u8>,
    pub trigger: Trigger,
}

/// Mathematical model of a trigger effect: strings become character
/// sequences and the raw arrays become sequences of bytes.
pub enum EffectModel {
    Off,
    Feedback { position: u8, strength: u8 },
    Weapon { start: u8, stop: u8, strength: u8 },
    Bow { start: u8, stop: u8, strength: u8, snapforce: u8 },
    Galloping { start: u8, stop: u8, first_foot: u8, second_foot: u8, frequency: u8 },
    Machine { start: u8, stop: u8, strength_a: u8, strength_b: u8, frequency: u8, period: u8 },
    Vibration { position: u8, amplitude: u8, frequency: u8 },
    FeedbackRaw { strength: Seq<u8> },
    VibrationRaw { amplitude: Seq<u8>, frequency: u8 },
    Mode { params: Seq<Seq<char>> },
}

/// Mathematical model of a trigger.
pub struct TriggerModel {
    pub side: Seq<char>,
    pub effect: EffectModel,
}

/// Mathematical model of the controller snapshot.
pub struct ControllerModel {
    pub lightbar_colour: Seq<u8>,
    pub lightbar_enabled: bool,
    pub battery_percentage: u8,
    pub playerleds: u8,
    pub microphone: bool,
    pub microphone_led: bool,
    pub speaker: Speaker,
    pub volume: u8,
    pub attenuation: Seq<u8>,
    pub trigger: TriggerModel,
}

impl View for TriggerEffect {
    type V = EffectModel;

    open spec fn view(&self) -> EffectModel {
        match self {
            TriggerEffect::Off => EffectModel::Off,
            TriggerEffect::Feedback { position, strength } => EffectModel::Feedback {
                position: *position,
                strength: *strength,
            },
            TriggerEffect::Weapon { start, stop, strength } => EffectModel::Weapon {
                start: *start,
                stop: *stop,
                strength: *strength,
            },
            TriggerEffect::Bow { start, stop, strength, snapforce } => EffectModel::Bow {
                start: *start,
                stop: *stop,
                strength: *strength,
                snapforce: *snapforce,
            },
            TriggerEffect::Galloping { start, stop, first_foot, second_foot, frequency } => {
                EffectModel::Galloping {
                    start: *start,
                    stop: *stop,
                    first_foot: *first_foot,
                    second_foot: *second_foot,
                    frequency: *frequency,
                }
            },
            TriggerEffect::Machine { start, stop, strength_a, strength_b, frequency, period } => {
                EffectModel::Machine {
                    start: *start,
                    stop: *stop,
                    strength_a: *strength_a,
                    strength_b: *strength_b,
                    frequency: *frequency,
                    period: *period,
                }
            },
            TriggerEffect::Vibration { position, amplitude, frequency } => EffectModel::Vibration {
                position: *position,
                amplitude: *amplitude,
                frequency: *frequency,
            },
            TriggerEffect::FeedbackRaw { strength } => EffectModel::FeedbackRaw {
                strength: strength@,
            },
            TriggerEffect::VibrationRaw { amplitude, frequency } => EffectModel::VibrationRaw {
                amplitude: amplitude@,
                frequency: *frequency,
            },
            TriggerEffect::Mode { params } => EffectModel::Mode { params: params.deep_view() },
        }
    }
}

impl View for Trigger {
    type V = TriggerModel;

    open spec fn view(&self) -> TriggerModel {
        TriggerModel { side: self.side@, effect: self.effect@ }
    }
}

impl View for Controller {
    type V = ControllerModel;

    open spec fn view(&self) -> ControllerModel {
        ControllerModel {
            lightbar_colour: self.lightbar_colour@,
            lightbar_enabled: self.lightbar_enabled,
            battery_percentage: self.battery_percentage,
            playerleds: self.playerleds,
            microphone: self.microphone,
            microphone_led: self.microphone_led,
            speaker: self.speaker,
            volume: self.volume,
            attenuation: self.attenuation@,
            trigger: self.trigger@,
        }
    }
}

impl Controller {
    /// Structural soundness of a snapshot: the lightbar colour always holds
    /// the four bytes red, green, blue, brightness, and the attenuation pair
    /// always holds the rumble and trigger levels.
    pub open spec fn wf(&self) -> bool {
        self@.lightbar_colour.len() == 4 && self@.attenuation.len() == 2
    }
}

impl Default for Speaker {
    /// The speaker routing used when no saved state exists.
    fn default() -> (r: Self)
        ensures
            r == Speaker::Internal,
    {
        Speaker::Internal
    }
}

impl Default for TriggerEffect {
    /// The effect used when no saved state exists.
    fn default() -> (r: Self)
        ensures
            r == TriggerEffect::Off,
    {
        TriggerEffect::Off
    }
}

impl Default for Trigger {
    /// The default trigger disables effects on both sides.
    fn default() -> (r: Self)
        ensures
            r@ == (TriggerModel { side: "both"@, effect: EffectModel::Off }),
    {
        Trigger { side: String::from_str("both"), effect: TriggerEffect::Off }
    }
}

/// The documented default snapshot: white lightbar at full brightness,
/// enabled, battery full, one player LED, microphone and its LED off,
/// internal speaker, volume zero, no attenuation, triggers off.
pub open spec fn default_controller_model() -> ControllerModel {
    ControllerModel {
        lightbar_colour: seq![255u8, 255u8, 255u8, 255u8],
        lightbar_enabled: true,
        battery_percentage: 100,
        playerleds: 1,
        microphone: false,
        microphone_led: false,
        speaker: Speaker::Internal,
        volume: 0,
        attenuation: seq![0u8, 0u8],
        trigger: TriggerModel { side: "both"@, effect: EffectModel::Off },
    }
}

impl Default for Controller {
    /// Sensible defaults for a controller, used when no saved state is
    /// found.
    fn default() -> (r: Self)
        ensures
            r@ == default_controller_model(),
            r.wf(),
    {
        let r = Controller {
            lightbar_colour: vec![255, 255, 255, 255],
            lightbar_enabled: true,
            battery_percentage: 100,
            playerleds: 1,
            microphone: false,
            microphone_led: false,
            speaker: Speaker::default(),
            volume: 0,
            attenuation: vec![0, 0],
            trigger: Trigger::default(),
        };
        proof {
            assert(r.lightbar_colour@ =~= seq![255u8, 255u8, 255u8, 255u8]);
            assert(r.attenuation@ =~= seq![0u8, 0u8]);
        }
        r
    }
}

/// The command keyword of an effect: the lowercase, hyphenated variant tag.
pub open spec fn effect_keyword(e: EffectModel) -> Seq<char> {
    match e {
        EffectModel::Off => "off"@,
        EffectModel::Feedback { .. } => "feedback"@,
        EffectModel::Weapon { .. } => "weapon"@,
        EffectModel::Bow { .. } => "bow"@,
        EffectModel::Galloping { .. } => "galloping"@,
        EffectModel::Machine { .. } => "machine"@,
        EffectModel::Vibration { .. } => "vibration"@,
        EffectModel::FeedbackRaw { .. } => "feedback-raw"@,
        EffectModel::VibrationRaw { .. } => "vibration-raw"@,
        EffectModel::Mode { .. } => "mode"@,
    }
}

/// The first `k` raw-array argument tokens: every value in decimal, the
/// first one with the opening bracket attached.
pub open spec fn raw_open_tokens(vals: Seq<u8>, k: int) -> Seq<Seq<char>> {
    Seq::new(
        k as nat,
        |j: int|
            if j == 0 {
                seq!['['] + dec_rep(vals[0] as nat)
            } else {
                dec_rep(vals[j] as nat)
            },
    )
}

/// A raw array rendered as argument tokens: each value in decimal, the first
/// token opening a bracket and the last one closing it. Raw arrays always
/// hold ten values, so the brackets land on distinct tokens.
pub open spec fn bracketed_tokens(vals: Seq<u8>) -> Seq<Seq<char>> {
    Seq::new(
        vals.len(),
        |j: int|
            if j == 0 {
                seq!['['] + dec_rep(vals[0] as nat)
            } else if j == vals.len() - 1 {
                dec_rep(vals[j] as nat) + seq![']']
            } else {
                dec_rep(vals[j] as nat)
            },
    )
}

/// The argument tokens of an effect: its field values in declared order,
/// numeric fields in decimal, raw arrays expanded element by element inside
/// brackets, and free-form mode parameters verbatim.
pub open spec fn effect_args(e: EffectModel) -> Seq<Seq<char>> {
    match e {
        EffectModel::Off => Seq::empty(),
        EffectModel::Feedback { position, strength } => seq![
            dec_rep(position as nat),
            dec_rep(strength as nat),
        ],
        EffectModel::Weapon { start, stop, strength } => seq![
            dec_rep(start as nat),
            dec_rep(stop as nat),
            dec_rep(strength as nat),
        ],
        EffectModel::Bow { start, stop, strength, snapforce } => seq![
            dec_rep(start as nat),
            dec_rep(stop as nat),
            dec_rep(strength as nat),
            dec_rep(snapforce as nat),
        ],
        EffectModel::Galloping { start, stop, first_foot, second_foot, frequency } => seq![
            dec_rep(start as nat),
            dec_rep(stop as nat),
            dec_rep(first_foot as nat),
            dec_rep(second_foot as nat),
            dec_rep(frequency as nat),
        ],
        EffectModel::Machine { start, stop, strength_a, strength_b, frequency, period } => seq![
            dec_rep(start as nat),
            dec_rep(stop as nat),
            dec_rep(strength_a as nat),
            dec_rep(strength_b as nat),
            dec_rep(frequency as nat),
            dec_rep(period as nat),
        ],
        EffectModel::Vibration { position, amplitude, frequency } => seq![
            dec_rep(position as nat),
            dec_rep(amplitude as nat),
            dec_rep(frequency as nat),
        ],
        EffectModel::FeedbackRaw { strength } => bracketed_tokens(strength),
        EffectModel::VibrationRaw { amplitude, frequency } => bracketed_tokens(amplitude).push(
            dec_rep(frequency as nat),
        ),
        EffectModel::Mode { params } => params,
    }
}

/// The token sequence of a trigger command: `trigger`, the side, the mode
/// keyword, then the argument tokens.
pub open spec fn cmd_tokens(t: TriggerModel) -> Seq<Seq<char>> {
    seq!["trigger"@, t.side, effect_keyword(t.effect)] + effect_args(t.effect)
}

/// The exact command string for a trigger: its tokens joined by single
/// spaces. A free-form mode command keeps one space after the keyword even
/// when the parameter list is empty, as the formatter that fixed this wire
/// format did.
pub open spec fn encode_chars(t: TriggerModel) -> Seq<char> {
    match t.effect {
        EffectModel::Mode { params } => join_sp(seq!["trigger"@, t.side, "mode"@]) + seq![' ']
            + join_sp(params),
        _ => join_sp(cmd_tokens(t)),
    }
}

/// Encoding is total and pure: the command string is a function of the
/// trigger value alone, so any two renderings of equal triggers are
/// byte-identical. `to_command` promises `r@ == encode_chars(self@)` on
/// every trigger, so two calls on the same trigger return the same text.
pub proof fn lemma_encode_pure(t1: TriggerModel, t2: TriggerModel, r1: Seq<char>, r2: Seq<char>)
    requires
        t1 == t2,
        r1 == encode_chars(t1),
        r2 == encode_chars(t2),
    ensures
        r1 == r2,
{
}

impl Trigger {
    /// Renders this trigger as the argument string of the external tool's
    /// `trigger` subcommand. Total and pure: the result is pinned, byte for
    /// byte, by the trigger value alone.
    pub fn to_command(&self) -> (r: String)
        ensures
            r@ == encode_chars(self@),
    {
        let ghost t_side = self.side@;
        let mut s = String::from_str("trigger");
        push_sep(&mut s);
        s.append(self.side.as_str());
        push_sep(&mut s);
        match &self.effect {
            TriggerEffect::Off => {
                s.append("off");
                proof {
                    lemma_join3("trigger"@, t_side, "off"@);
                    assert(cmd_tokens(self@) =~= seq!["trigger"@, t_side, "off"@]);
                    assert(s@ =~= join_sp(cmd_tokens(self@)));
                }
            },
            TriggerEffect::Feedback { position, strength } => {
                s.append("feedback");
                push_sep(&mut s);
                let d0 = u8_to_decimal(*position);
                s.append(d0.as_str());
                push_sep(&mut s);
                let d1 = u8_to_decimal(*strength);
                s.append(d1.as_str());
                proof {
                    lemma_join5("trigger"@, t_side, "feedback"@, d0@, d1@);
                    assert(cmd_tokens(self@) =~= seq!["trigger"@, t_side, "feedback"@, d0@, d1@]);
                    assert(s@ =~= join_sp(cmd_tokens(self@)));
                }
            },
            TriggerEffect::Weapon { start, stop, strength } => {
                s.append("weapon");
                push_sep(&mut s);
                let d0 = u8_to_decimal(*start);
                s.append(d0.as_str());
                push_sep(&mut s);
                let d1 = u8_to_decimal(*stop);
                s.append(d1.as_str());
                push_sep(&mut s);
                let d2 = u8_to_decimal(*strength);
                s.append(d2.as_str());
                proof {
                    lemma_join6("trigger"@, t_side, "weapon"@, d0@, d1@, d2@);
                    assert(cmd_tokens(self@) =~= seq![
                        "trigger"@,
                        t_side,
                        "weapon"@,
                        d0@,
                        d1@,
                        d2@,
                    ]);
                    assert(s@ =~= join_sp(cmd_tokens(self@)));
                }
            },
            TriggerEffect::Bow { start, stop, strength, snapforce } => {
                s.append("bow");
                push_sep(&mut s);
                let d0 = u8_to_decimal(*start);
                s.append(d0.as_str());
                push_sep(&mut s);
                let d1 = u8_to_decimal(*stop);
                s.append(d1.as_str());
                push_sep(&mut s);
                let d2 = u8_to_decimal(*strength);
                s.append(d2.as_str());
                push_sep(&mut s);
                let d3 = u8_to_decimal(*snapforce);
                s.append(d3.as_str());
                proof {
                    lemma_join7("trigger"@, t_side, "bow"@, d0@, d1@, d2@, d3@);
                    assert(cmd_tokens(self@) =~= seq![
                        "trigger"@,
                        t_side,
                        "bow"@,
                        d0@,
                        d1@,
                        d2@,
                        d3@,
                    ]);
                    assert(s@ =~= join_sp(cmd_tokens(self@)));
                }
            },
            TriggerEffect::Galloping { start, stop, first_foot, second_foot, frequency } => {
                s.append("galloping");
                push_sep(&mut s);
                let d0 = u8_to_decimal(*start);
                s.append(d0.as_str());
                push_sep(&mut s);
                let d1 = u8_to_decimal(*stop);
                s.append(d1.as_str());
                push_sep(&mut s);
                let d2 = u8_to_decimal(*first_foot);
                s.append(d2.as_str());
                push_sep(&mut s);
                let d3 = u8_to_decimal(*second_foot);
                s.append(d3.as_str());
                push_sep(&mut s);
                let d4 = u8_to_decimal(*frequency);
                s.append(d4.as_str());
                proof {
                    lemma_join8("trigger"@, t_side, "galloping"@, d0@, d1@, d2@, d3@, d4@);
                    assert(cmd_tokens(self@) =~= seq![
                        "trigger"@,
                        t_side,
                        "galloping"@,
                        d0@,
                        d1@,
                        d2@,
                        d3@,
                        d4@,
                    ]);
                    assert(s@ =~= join_sp(cmd_tokens(self@)));
                }
            },
            TriggerEffect::Machine { start, stop, strength_a, strength_b, frequency, period } => {
                s.append("machine");
                push_sep(&mut s);
                let d0 = u8_to_decimal(*start);
                s.append(d0.as_str());
                push_sep(&mut s);
                let d1 = u8_to_decimal(*stop);
                s.append(d1.as_str());
                push_sep(&mut s);
                let d2 = u8_to_decimal(*strength_a);
                s.append(d2.as_str());
                push_sep(&mut s);
                let d3 = u8_to_decimal(*strength_b);
                s.append(d3.as_str());
                push_sep(&mut s);
                let d4 = u8_to_decimal(*frequency);
                s.append(d4.as_str());
                push_sep(&mut s);
                let d5 = u8_to_decimal(*period);
                s.append(d5.as_str());
                proof {
                    lemma_join9("trigger"@, t_side, "machine"@, d0@, d1@, d2@, d3@, d4@, d5@);
                    assert(cmd_tokens(self@) =~= seq![
                        "trigger"@,
                        t_side,
                        "machine"@,
                        d0@,
                        d1@,
                        d2@,
                        d3@,
                        d4@,
                        d5@,
                    ]);
                    assert(s@ =~= join_sp(cmd_tokens(self@)));
                }
            },
            TriggerEffect::Vibration { position, amplitude, frequency } => {
                s.append("vibration");
                push_sep(&mut s);
                let d0 = u8_to_decimal(*position);
                s.append(d0.as_str());
                push_sep(&mut s);
                let d1 = u8_to_decimal(*amplitude);
                s.append(d1.as_str());
                push_sep(&mut s);
                let d2 = u8_to_decimal(*frequency);
                s.append(d2.as_str());
                proof {
                    lemma_join6("trigger"@, t_side, "vibration"@, d0@, d1@, d2@);
                    assert(cmd_tokens(self@) =~= seq![
                        "trigger"@,
                        t_side,
                        "vibration"@,
                        d0@,
                        d1@,
                        d2@,
                    ]);
                    assert(s@ =~= join_sp(cmd_tokens(self@)));
                }
            },
            TriggerEffect::FeedbackRaw { strength } => {
                s.append("feedback-raw");
                push_sep(&mut s);
                s.append("[");
                let d0 = u8_to_decimal(strength[0]);
                s.append(d0.as_str());
                proof {
                    reveal_strlit("[");
                    lemma_join3("trigger"@, t_side, "feedback-raw"@);
                    lemma_join_push(
                        seq!["trigger"@, t_side, "feedback-raw"@],
                        seq!['['] + dec_rep(strength@[0] as nat),
                    );
                    assert(seq!["trigger"@, t_side, "feedback-raw"@] + raw_open_tokens(
                        strength@,
                        1,
                    ) =~= seq!["trigger"@, t_side, "feedback-raw"@].push(
                        seq!['['] + dec_rep(strength@[0] as nat),
                    ));
                    assert(s@ =~= join_sp(
                        seq!["trigger"@, t_side, "feedback-raw"@] + raw_open_tokens(strength@, 1),
                    ));
                }
                let mut i: usize = 1;
                while i < 10
                    invariant
                        1 <= i <= 10,
                        self.effect matches TriggerEffect::FeedbackRaw { strength: st } && st
                            == *strength,
                        s@ == join_sp(
                            seq!["trigger"@, self.side@, "feedback-raw"@] + raw_open_tokens(
                                strength@,
                                i as int,
                            ),
                        ),
                    decreases 10 - i,
                {
                    push_sep(&mut s);
                    let d = u8_to_decimal(strength[i]);
                    s.append(d.as_str());
                    proof {
                        let base = seq!["trigger"@, self.side@, "feedback-raw"@];
                        lemma_join_push(
                            base + raw_open_tokens(strength@, i as int),
                            dec_rep(strength@[i as int] as nat),
                        );
                        assert((base + raw_open_tokens(strength@, i as int)).push(
                            dec_rep(strength@[i as int] as nat),
                        ) =~= base + raw_open_tokens(strength@, i + 1));
                    }
                    i = i + 1;
                }
                s.append("]");
                proof {
                    reveal_strlit("]");
                    let base = seq!["trigger"@, t_side, "feedback-raw"@];
                    let toks = base + raw_open_tokens(strength@, 10);
                    lemma_join_extend_last(toks, seq![']']);
                    assert(toks.update(toks.len() - 1, toks.last() + seq![']']) =~= cmd_tokens(
                        self@,
                    ));
                    assert(s@ =~= join_sp(cmd_tokens(self@)));
                }
            },
            TriggerEffect::VibrationRaw { amplitude, frequency } => {
                s.append("vibration-raw");
                push_sep(&mut s);
                s.append("[");
                let d0 = u8_to_decimal(amplitude[0]);
                s.append(d0.as_str());
                proof {
                    reveal_strlit("[");
                    lemma_join3("trigger"@, t_side, "vibration-raw"@);
                    lemma_join_push(
                        seq!["trigger"@, t_side, "vibration-raw"@],
                        seq!['['] + dec_rep(amplitude@[0] as nat),
                    );
                    assert(seq!["trigger"@, t_side, "vibration-raw"@] + raw_open_tokens(
                        amplitude@,
                        1,
                    ) =~= seq!["trigger"@, t_side, "vibration-raw"@].push(
                        seq!['['] + dec_rep(amplitude@[0] as nat),
                    ));
                    assert(s@ =~= join_sp(
                        seq!["trigger"@, t_side, "vibration-raw"@] + raw_open_tokens(amplitude@, 1),
                    ));
                }
                let mut i: usize = 1;
                while i < 10
                    invariant
                        1 <= i <= 10,
                        self.effect matches TriggerEffect::VibrationRaw { amplitude: am, .. } && am
                            == *amplitude,
                        s@ == join_sp(
                            seq!["trigger"@, self.side@, "vibration-raw"@] + raw_open_tokens(
                                amplitude@,
                                i as int,
                            ),
                        ),
                    decreases 10 - i,
                {
                    push_sep(&mut s);
                    let d = u8_to_decimal(amplitude[i]);
                    s.append(d.as_str());
                    proof {
                        let base = seq!["trigger"@, self.side@, "vibration-raw"@];
                        lemma_join_push(
                            base + raw_open_tokens(amplitude@, i as int),
                            dec_rep(amplitude@[i as int] as nat),
                        );
                        assert((base + raw_open_tokens(amplitude@, i as int)).push(
                            dec_rep(amplitude@[i as int] as nat),
                        ) =~= base + raw_open_tokens(amplitude@, i + 1));
                    }
                    i = i + 1;
                }
                s.append("]");
                let ghost mid = seq!["trigger"@, t_side, "vibration-raw"@] + bracketed_tokens(
                    amplitude@,
                );
                proof {
                    reveal_strlit("]");
                    let base = seq!["trigger"@, t_side, "vibration-raw"@];
                    let toks = base + raw_open_tokens(amplitude@, 10);
                    lemma_join_extend_last(toks, seq![']']);
                    assert(toks.update(toks.len() - 1, toks.last() + seq![']']) =~= mid);
                    assert(s@ =~= join_sp(mid));
                }
                push_sep(&mut s);
                let df = u8_to_decimal(*frequency);
                s.append(df.as_str());
                proof {
                    lemma_join_push(mid, dec_rep(frequency as nat));
                    assert(mid.push(dec_rep(frequency as nat)) =~= cmd_tokens(self@));
                    assert(s@ =~= join_sp(cmd_tokens(self@)));
                }
            },
            TriggerEffect::Mode { params } => {
                s.append("mode");
                push_sep(&mut s);
                proof {
                    lemma_join3("trigger"@, t_side, "mode"@);
                    assert(params.deep_view().take(0) =~= Seq::<Seq<char>>::empty());
                    assert(s@ =~= join_sp(seq!["trigger"@, t_side, "mode"@]) + seq![' '] + join_sp(
                        params.deep_view().take(0),
                    ));
                }
                let mut i: usize = 0;
                let n = params.len();
                while i < n
                    invariant
                        0 <= i <= n,
                        self.effect matches TriggerEffect::Mode { params: ps } && ps == *params,
                        n == params.len(),
                        s@ == join_sp(seq!["trigger"@, self.side@, "mode"@]) + seq![' '] + join_sp(
                            params.deep_view().take(i as int),
                        ),
                    decreases n - i,
                {
                    if i > 0 {
                        push_sep(&mut s);
                    }
                    s.append(params[i].as_str());
                    proof {
                        let pv = params.deep_view();
                        if i > 0 {
                            lemma_join_push(pv.take(i as int), pv[i as int]);
                        } else {
                            assert(join_sp(pv.take(1)) == pv.take(1)[0]);
                        }
                        assert(pv.take(i as int).push(pv[i as int]) =~= pv.take(i + 1));
                        assert(s@ =~= join_sp(seq!["trigger"@, self.side@, "mode"@]) + seq![' ']
                            + join_sp(pv.take(i + 1)));
                    }
                    i = i + 1;
                }
                proof {
                    assert(params.deep_view().take(n as int) =~= params.deep_view());
                }
            },
        }
        s
    }
}

} // verus!
