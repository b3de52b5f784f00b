//! The command decoder: given the whitespace tokens of a trigger command
//! that the external tool executed successfully, it reconstructs the
//! `Trigger` that command stands for, so the in-memory snapshot can be kept
//! consistent with the device even when commands are issued from canned
//! preset strings rather than through the typed encoder.

use vstd::prelude::*;

verus! {

use crate::structs::{Controller, ControllerModel, EffectModel, Trigger, TriggerEffect,
    TriggerModel};
use crate::structs::{bracketed_tokens, cmd_tokens, encode_chars};
use crate::text::{lenient_u8, parse_u8_lenient, token_is, wf_token};
use crate::text::{dec_rep, join_sp, split_ws};
use crate::text::{lemma_dec_rep_digits, lemma_join3, lemma_join4, lemma_join_cons,
    lemma_lenient_dec_rep, lemma_split_join};

/// The trigger a full command token list (`dualsensectl trigger <side>
/// <mode> <args...>`) denotes. `None` when the list is not a trigger command
/// of the external tool, the mode keyword is unknown, or the token count
/// falls short of the mode's arity. The side token is taken verbatim;
/// numeric fields are read leniently, a malformed token counting as zero;
/// tokens beyond a mode's arity are ignored; free-form `mode` parameters are
/// taken verbatim to the end.
pub open spec fn decode_spec(parts: Seq<Seq<char>>) -> Option<TriggerModel> {
    if parts.len() >= 4 && parts[0] == "dualsensectl"@ && parts[1] == "trigger"@ {
        let side = parts[2];
        let kw = parts[3];
        if kw == "off"@ {
            Some(TriggerModel { side, effect: EffectModel::Off })
        } else if kw == "feedback"@ && parts.len() >= 6 {
            Some(
                TriggerModel {
                    side,
                    effect: EffectModel::Feedback {
                        position: lenient_u8(parts[4]),
                        strength: lenient_u8(parts[5]),
                    },
                },
            )
        } else if kw == "weapon"@ && parts.len() >= 7 {
            Some(
                TriggerModel {
                    side,
                    effect: EffectModel::Weapon {
                        start: lenient_u8(parts[4]),
                        stop: lenient_u8(parts[5]),
                        strength: lenient_u8(parts[6]),
                    },
                },
            )
        } else if kw == "bow"@ && parts.len() >= 8 {
            Some(
                TriggerModel {
                    side,
                    effect: EffectModel::Bow {
                        start: lenient_u8(parts[4]),
                        stop: lenient_u8(parts[5]),
                        strength: lenient_u8(parts[6]),
                        snapforce: lenient_u8(parts[7]),
                    },
                },
            )
        } else if kw == "galloping"@ && parts.len() >= 9 {
            Some(
                TriggerModel {
                    side,
                    effect: EffectModel::Galloping {
                        start: lenient_u8(parts[4]),
                        stop: lenient_u8(parts[5]),
                        first_foot: lenient_u8(parts[6]),
                        second_foot: lenient_u8(parts[7]),
                        frequency: lenient_u8(parts[8]),
                    },
                },
            )
        } else if kw == "machine"@ && parts.len() >= 10 {
            Some(
                TriggerModel {
                    side,
                    effect: EffectModel::Machine {
                        start: lenient_u8(parts[4]),
                        stop: lenient_u8(parts[5]),
                        strength_a: lenient_u8(parts[6]),
                        strength_b: lenient_u8(parts[7]),
                        frequency: lenient_u8(parts[8]),
                        period: lenient_u8(parts[9]),
                    },
                },
            )
        } else if kw == "vibration"@ && parts.len() >= 7 {
            Some(
                TriggerModel {
                    side,
                    effect: EffectModel::Vibration {
                        position: lenient_u8(parts[4]),
                        amplitude: lenient_u8(parts[5]),
                        frequency: lenient_u8(parts[6]),
                    },
                },
            )
        } else if kw == "feedback-raw"@ && parts.len() >= 14 {
            Some(
                TriggerModel {
                    side,
                    effect: EffectModel::FeedbackRaw {
                        strength: Seq::new(10, |j: int| lenient_u8(parts[4 + j])),
                    },
                },
            )
        } else if kw == "vibration-raw"@ && parts.len() >= 15 {
            Some(
                TriggerModel {
                    side,
                    effect: EffectModel::VibrationRaw {
                        amplitude: Seq::new(10, |j: int| lenient_u8(parts[4 + j])),
                        frequency: lenient_u8(parts[14]),
                    },
                },
            )
        } else if kw == "mode"@ {
            Some(TriggerModel { side, effect: EffectModel::Mode { params: parts.skip(4) } })
        } else {
            None
        }
    } else {
        None
    }
}

/// Reads ten lenient byte values starting at token four.
fn read_raw_values(parts: &Vec<String>) -> (r: [u8; 10])
    requires
        parts@.len() >= 14,
    ensures
        r@ == Seq::new(10, |j: int| lenient_u8(parts.deep_view()[4 + j])),
{
    let mut vals: [u8; 10] = [0, 0, 0, 0, 0, 0, 0, 0, 0, 0];
    let mut i: usize = 0;
    while i < 10
        invariant
            0 <= i <= 10,
            parts@.len() >= 14,
            forall|j: int| 0 <= j < i ==> vals@[j] == lenient_u8(parts.deep_view()[4 + j]),
        decreases 10 - i,
    {
        vals[i] = parse_u8_lenient(parts[4 + i].as_str());
        i = i + 1;
    }
    proof {
        assert(vals@ =~= Seq::new(10, |j: int| lenient_u8(parts.deep_view()[4 + j])));
    }
    vals
}

/// Decodes a full command token list back into a trigger, exactly as
/// `decode_spec` describes.
pub fn decode_trigger(parts: &Vec<String>) -> (r: Option<Trigger>)
    ensures
        match r {
            Some(t) => decode_spec(parts.deep_view()) == Some(t@),
            None => decode_spec(parts.deep_view()) is None,
        },
{
    if !(parts.len() >= 4 && token_is(&parts[0], "dualsensectl") && token_is(
        &parts[1],
        "trigger",
    )) {
        return None;
    }
    let side = parts[2].clone();
    if token_is(&parts[3], "off") {
        Some(Trigger { side, effect: TriggerEffect::Off })
    } else if token_is(&parts[3], "feedback") && parts.len() >= 6 {
        Some(
            Trigger {
                side,
                effect: TriggerEffect::Feedback {
                    position: parse_u8_lenient(parts[4].as_str()),
                    strength: parse_u8_lenient(parts[5].as_str()),
                },
            },
        )
    } else if token_is(&parts[3], "weapon") && parts.len() >= 7 {
        Some(
            Trigger {
                side,
                effect: TriggerEffect::Weapon {
                    start: parse_u8_lenient(parts[4].as_str()),
                    stop: parse_u8_lenient(parts[5].as_str()),
                    strength: parse_u8_lenient(parts[6].as_str()),
                },
            },
        )
    } else if token_is(&parts[3], "bow") && parts.len() >= 8 {
        Some(
            Trigger {
                side,
                effect: TriggerEffect::Bow {
                    start: parse_u8_lenient(parts[4].as_str()),
                    stop: parse_u8_lenient(parts[5].as_str()),
                    strength: parse_u8_lenient(parts[6].as_str()),
                    snapforce: parse_u8_lenient(parts[7].as_str()),
                },
            },
        )
    } else if token_is(&parts[3], "galloping") && parts.len() >= 9 {
        Some(
            Trigger {
                side,
                effect: TriggerEffect::Galloping {
                    start: parse_u8_lenient(parts[4].as_str()),
                    stop: parse_u8_lenient(parts[5].as_str()),
                    first_foot: parse_u8_lenient(parts[6].as_str()),
                    second_foot: parse_u8_lenient(parts[7].as_str()),
                    frequency: parse_u8_lenient(parts[8].as_str()),
                },
            },
        )
    } else if token_is(&parts[3], "machine") && parts.len() >= 10 {
        Some(
            Trigger {
                side,
                effect: TriggerEffect::Machine {
                    start: parse_u8_lenient(parts[4].as_str()),
                    stop: parse_u8_lenient(parts[5].as_str()),
                    strength_a: parse_u8_lenient(parts[6].as_str()),
                    strength_b: parse_u8_lenient(parts[7].as_str()),
                    frequency: parse_u8_lenient(parts[8].as_str()),
                    period: parse_u8_lenient(parts[9].as_str()),
                },
            },
        )
    } else if token_is(&parts[3], "vibration") && parts.len() >= 7 {
        Some(
            Trigger {
                side,
                effect: TriggerEffect::Vibration {
                    position: parse_u8_lenient(parts[4].as_str()),
                    amplitude: parse_u8_lenient(parts[5].as_str()),
                    frequency: parse_u8_lenient(parts[6].as_str()),
                },
            },
        )
    } else if token_is(&parts[3], "feedback-raw") && parts.len() >= 14 {
        let strength = read_raw_values(parts);
        Some(Trigger { side, effect: TriggerEffect::FeedbackRaw { strength } })
    } else if token_is(&parts[3], "vibration-raw") && parts.len() >= 15 {
        let amplitude = read_raw_values(parts);
        Some(
            Trigger {
                side,
                effect: TriggerEffect::VibrationRaw {
                    amplitude,
                    frequency: parse_u8_lenient(parts[14].as_str()),
                },
            },
        )
    } else if token_is(&parts[3], "mode") {
        let mut params: Vec<String> = Vec::new();
        let mut i: usize = 4;
        while i < parts.len()
            invariant
                4 <= i <= parts@.len(),
                params.deep_view() =~= parts.deep_view().subrange(4, i as int),
            decreases parts@.len() - i,
        {
            let ghost pre = params.deep_view();
            params.push(parts[i].clone());
            proof {
                assert(params.deep_view() =~= pre.push(parts.deep_view()[i as int]));
                assert(pre.push(parts.deep_view()[i as int]) =~= parts.deep_view().subrange(
                    4,
                    i + 1,
                ));
            }
            i = i + 1;
        }
        proof {
            assert(parts.deep_view().subrange(4, parts.deep_view().len() as int)
                =~= parts.deep_view().skip(4));
        }
        Some(Trigger { side, effect: TriggerEffect::Mode { params } })
    } else {
        None
    }
}

/// The state-resync step run after a command has executed successfully:
/// when the tokens are a recognised trigger command, the snapshot's trigger
/// is replaced by the trigger they denote and every other field is kept;
/// otherwise the snapshot is left untouched.
pub fn apply_trigger_command(controller: &mut Controller, parts: &Vec<String>) -> (updated: bool)
    ensures
        match decode_spec(parts.deep_view()) {
            Some(m) => updated && final(controller)@ == (ControllerModel {
                trigger: m,
                ..old(controller)@
            }),
            None => !updated && final(controller)@ == old(controller)@,
        },
        final(controller).wf() == old(controller).wf(),
{
    match decode_trigger(parts) {
        Some(t) => {
            controller.trigger = t;
            true
        },
        None => false,
    }
}

/// A trigger value that the wire format can carry faithfully: the side is a
/// single usable token, raw arrays hold their ten values, and free-form mode
/// parameters are single usable tokens. Every trigger built from the
/// library's own types satisfies the array condition by construction.
pub open spec fn wf_trigger_model(t: TriggerModel) -> bool {
    wf_token(t.side) && match t.effect {
        EffectModel::FeedbackRaw { strength } => strength.len() == 10,
        EffectModel::VibrationRaw { amplitude, .. } => amplitude.len() == 10,
        EffectModel::Mode { params } => forall|i: int|
            0 <= i < params.len() ==> wf_token(#[trigger] params[i]),
        _ => true,
    }
}

/// Every token of a decimal rendering is usable, with or without the one
/// bracket the encoder attaches.
proof fn lemma_dec_token_wf(n: nat)
    ensures
        wf_token(dec_rep(n)),
        wf_token(seq!['['] + dec_rep(n)),
        wf_token(dec_rep(n) + seq![']']),
{
    lemma_dec_rep_digits(n);
}

/// Every token the encoder emits for a well-formed trigger is usable.
proof fn lemma_cmd_tokens_wf(t: TriggerModel)
    requires
        wf_trigger_model(t),
    ensures
        forall|i: int| 0 <= i < cmd_tokens(t).len() ==> wf_token(#[trigger] cmd_tokens(t)[i]),
{
    reveal_strlit("trigger");
    reveal_strlit("off");
    reveal_strlit("feedback");
    reveal_strlit("weapon");
    reveal_strlit("bow");
    reveal_strlit("galloping");
    reveal_strlit("machine");
    reveal_strlit("vibration");
    reveal_strlit("feedback-raw");
    reveal_strlit("vibration-raw");
    reveal_strlit("mode");
    let toks = cmd_tokens(t);
    assert(wf_token("trigger"@));
    assert(wf_token(t.side));
    match t.effect {
        EffectModel::Off => {
            assert(wf_token("off"@));
        },
        EffectModel::Feedback { position, strength } => {
            lemma_dec_token_wf(position as nat);
            lemma_dec_token_wf(strength as nat);
            assert(wf_token("feedback"@));
        },
        EffectModel::Weapon { start, stop, strength } => {
            lemma_dec_token_wf(start as nat);
            lemma_dec_token_wf(stop as nat);
            lemma_dec_token_wf(strength as nat);
            assert(wf_token("weapon"@));
        },
        EffectModel::Bow { start, stop, strength, snapforce } => {
            lemma_dec_token_wf(start as nat);
            lemma_dec_token_wf(stop as nat);
            lemma_dec_token_wf(strength as nat);
            lemma_dec_token_wf(snapforce as nat);
            assert(wf_token("bow"@));
        },
        EffectModel::Galloping { start, stop, first_foot, second_foot, frequency } => {
            lemma_dec_token_wf(start as nat);
            lemma_dec_token_wf(stop as nat);
            lemma_dec_token_wf(first_foot as nat);
            lemma_dec_token_wf(second_foot as nat);
            lemma_dec_token_wf(frequency as nat);
            assert(wf_token("galloping"@));
        },
        EffectModel::Machine { start, stop, strength_a, strength_b, frequency, period } => {
            lemma_dec_token_wf(start as nat);
            lemma_dec_token_wf(stop as nat);
            lemma_dec_token_wf(strength_a as nat);
            lemma_dec_token_wf(strength_b as nat);
            lemma_dec_token_wf(frequency as nat);
            lemma_dec_token_wf(period as nat);
            assert(wf_token("machine"@));
        },
        EffectModel::Vibration { position, amplitude, frequency } => {
            lemma_dec_token_wf(position as nat);
            lemma_dec_token_wf(amplitude as nat);
            lemma_dec_token_wf(frequency as nat);
            assert(wf_token("vibration"@));
        },
        EffectModel::FeedbackRaw { strength } => {
            assert(wf_token("feedback-raw"@));
            assert forall|j: int| 0 <= j < 10 implies wf_token(
                #[trigger] bracketed_tokens(strength)[j],
            ) by {
                lemma_dec_token_wf(strength[j] as nat);
            }
        },
        EffectModel::VibrationRaw { amplitude, frequency } => {
            assert(wf_token("vibration-raw"@));
            lemma_dec_token_wf(frequency as nat);
            assert forall|j: int| 0 <= j < 10 implies wf_token(
                #[trigger] bracketed_tokens(amplitude)[j],
            ) by {
                lemma_dec_token_wf(amplitude[j] as nat);
            }
        },
        EffectModel::Mode { params } => {
            assert(wf_token("mode"@));
        },
    }
}

/// The lengths of the mode keywords, and a distinguishing character for the
/// two pairs of equal length: enough to tell any two keywords apart.
proof fn lemma_keyword_facts()
    ensures
        "off"@.len() == 3,
        "feedback"@.len() == 8,
        "weapon"@.len() == 6,
        "bow"@.len() == 3,
        "galloping"@.len() == 9,
        "machine"@.len() == 7,
        "vibration"@.len() == 9,
        "feedback-raw"@.len() == 12,
        "vibration-raw"@.len() == 13,
        "mode"@.len() == 4,
        "off"@[0] == 'o',
        "bow"@[0] == 'b',
        "galloping"@[0] == 'g',
        "vibration"@[0] == 'v',
{
    reveal_strlit("off");
    reveal_strlit("feedback");
    reveal_strlit("weapon");
    reveal_strlit("bow");
    reveal_strlit("galloping");
    reveal_strlit("machine");
    reveal_strlit("vibration");
    reveal_strlit("feedback-raw");
    reveal_strlit("vibration-raw");
    reveal_strlit("mode");
}

/// The round-trip law: decoding the whitespace tokens of the full command
/// the encoder produced — `dualsensectl ` followed by the trigger's own
/// command string — yields the original trigger, for every effect variant
/// and all field values a well-formed trigger can carry.
#[verifier::rlimit(100)]
pub proof fn lemma_encode_decode_round_trip(t: TriggerModel)
    requires
        wf_trigger_model(t),
    ensures
        decode_spec(split_ws("dualsensectl "@ + encode_chars(t))) == Some(t),
{
    reveal_strlit("dualsensectl ");
    reveal_strlit("dualsensectl");
    reveal_strlit("trigger");
    reveal_strlit("off");
    reveal_strlit("feedback");
    reveal_strlit("weapon");
    reveal_strlit("bow");
    reveal_strlit("galloping");
    reveal_strlit("machine");
    reveal_strlit("vibration");
    reveal_strlit("feedback-raw");
    reveal_strlit("vibration-raw");
    reveal_strlit("mode");
    lemma_keyword_facts();
    lemma_cmd_tokens_wf(t);
    assert(wf_token("dualsensectl"@));
    let full = "dualsensectl "@ + encode_chars(t);
    assert("dualsensectl "@ =~= "dualsensectl"@ + seq![' ']);
    if let EffectModel::Mode { params } = t.effect {
        let base = seq!["dualsensectl"@, "trigger"@, t.side, "mode"@];
        lemma_join4("dualsensectl"@, "trigger"@, t.side, "mode"@);
        lemma_join3("trigger"@, t.side, "mode"@);
        assert(full =~= join_sp(base) + (seq![' '] + join_sp(params)));
        lemma_split_join(base, seq![' '] + join_sp(params));
        assert((seq![' '] + join_sp(params))[0] == ' ');
        assert((seq![' '] + join_sp(params)).drop_first() =~= join_sp(params));
        assert(split_ws(seq![' '] + join_sp(params)) == split_ws(join_sp(params)));
        lemma_split_join(params, Seq::empty());
        assert(join_sp(params) + Seq::<char>::empty() =~= join_sp(params));
        assert(split_ws(Seq::<char>::empty()) =~= Seq::<Seq<char>>::empty());
        assert(split_ws(join_sp(params)) =~= params);
        let toks = base + params;
        assert(split_ws(full) =~= toks);
        assert(toks[0] == "dualsensectl"@);
        assert(toks[1] == "trigger"@);
        assert(toks[2] == t.side);
        assert(toks[3] == "mode"@);
        assert(toks.skip(4) =~= params);
        assert(decode_spec(toks) == Some(t));
    } else {
        let args = cmd_tokens(t);
        let toks = seq!["dualsensectl"@] + args;
        lemma_join_cons("dualsensectl"@, args);
        assert(full =~= join_sp(toks));
        assert forall|i: int| 0 <= i < toks.len() implies wf_token(#[trigger] toks[i]) by {
            if i > 0 {
                assert(toks[i] == args[i - 1]);
            }
        }
        lemma_split_join(toks, Seq::empty());
        assert(join_sp(toks) + Seq::<char>::empty() =~= join_sp(toks));
        assert(split_ws(Seq::<char>::empty()) =~= Seq::<Seq<char>>::empty());
        assert(split_ws(full) =~= toks);
        assert(toks[0] == "dualsensectl"@);
        assert(toks[1] == "trigger"@);
        assert(toks[2] == t.side);
        match t.effect {
            EffectModel::Off => {
                assert(toks.len() == 4);
                assert(toks[3] == "off"@);
                assert(decode_spec(toks) == Some(t));
            },
            EffectModel::Feedback { position, strength } => {
                assert(toks.len() == 6);
                assert(toks[3] == "feedback"@);
                assert(toks[4] == dec_rep(position as nat));
                assert(toks[5] == dec_rep(strength as nat));
                lemma_lenient_dec_rep(position as nat);
                lemma_lenient_dec_rep(strength as nat);
                assert(decode_spec(toks) == Some(t));
            },
            EffectModel::Weapon { start, stop, strength } => {
                assert(toks.len() == 7);
                assert(toks[3] == "weapon"@);
                lemma_lenient_dec_rep(start as nat);
                lemma_lenient_dec_rep(stop as nat);
                lemma_lenient_dec_rep(strength as nat);
                assert(decode_spec(toks) == Some(t));
            },
            EffectModel::Bow { start, stop, strength, snapforce } => {
                assert(toks.len() == 8);
                assert(toks[3] == "bow"@);
                lemma_lenient_dec_rep(start as nat);
                lemma_lenient_dec_rep(stop as nat);
                lemma_lenient_dec_rep(strength as nat);
                lemma_lenient_dec_rep(snapforce as nat);
                assert(decode_spec(toks) == Some(t));
            },
            EffectModel::Galloping { start, stop, first_foot, second_foot, frequency } => {
                assert(toks.len() == 9);
                assert(toks[3] == "galloping"@);
                lemma_lenient_dec_rep(start as nat);
                lemma_lenient_dec_rep(stop as nat);
                lemma_lenient_dec_rep(first_foot as nat);
                lemma_lenient_dec_rep(second_foot as nat);
                lemma_lenient_dec_rep(frequency as nat);
                assert(decode_spec(toks) == Some(t));
            },
            EffectModel::Machine { start, stop, strength_a, strength_b, frequency, period } => {
                assert(toks.len() == 10);
                assert(toks[3] == "machine"@);
                lemma_lenient_dec_rep(start as nat);
                lemma_lenient_dec_rep(stop as nat);
                lemma_lenient_dec_rep(strength_a as nat);
                lemma_lenient_dec_rep(strength_b as nat);
                lemma_lenient_dec_rep(frequency as nat);
                lemma_lenient_dec_rep(period as nat);
                assert(decode_spec(toks) == Some(t));
            },
            EffectModel::Vibration { position, amplitude, frequency } => {
                assert(toks.len() == 7);
                assert(toks[3] == "vibration"@);
                lemma_lenient_dec_rep(position as nat);
                lemma_lenient_dec_rep(amplitude as nat);
                lemma_lenient_dec_rep(frequency as nat);
                assert(decode_spec(toks) == Some(t));
            },
            EffectModel::FeedbackRaw { strength } => {
                assert(toks.len() == 14);
                assert(toks[3] == "feedback-raw"@);
                assert forall|j: int| 0 <= j < 10 implies lenient_u8(#[trigger] toks[4 + j])
                    == strength[j] by {
                    assert(toks[4 + j] == bracketed_tokens(strength)[j]);
                    lemma_lenient_dec_rep(strength[j] as nat);
                }
                assert(Seq::new(10, |j: int| lenient_u8(toks[4 + j])) =~= strength);
                assert(decode_spec(toks) == Some(t));
            },
            EffectModel::VibrationRaw { amplitude, frequency } => {
                assert(toks.len() == 15);
                assert(toks[3] == "vibration-raw"@);
                assert forall|j: int| 0 <= j < 10 implies lenient_u8(#[trigger] toks[4 + j])
                    == amplitude[j] by {
                    assert(toks[4 + j] == bracketed_tokens(amplitude)[j]);
                    lemma_lenient_dec_rep(amplitude[j] as nat);
                }
                assert(Seq::new(10, |j: int| lenient_u8(toks[4 + j])) =~= amplitude);
                assert(toks[14] == dec_rep(frequency as nat));
                lemma_lenient_dec_rep(frequency as nat);
                assert(decode_spec(toks) == Some(t));
            },
            EffectModel::Mode { .. } => {},
        }
    }
}

/// A raw-array command with fewer than ten value tokens decodes to nothing,
/// so applying it leaves the snapshot untouched.
pub proof fn lemma_raw_needs_ten_values(parts: Seq<Seq<char>>)
    requires
        parts.len() < 14,
        parts.len() >= 4 ==> parts[3] == "feedback-raw"@ || parts[3] == "vibration-raw"@,
    ensures
        decode_spec(parts) is None,
{
    reveal_strlit("off");
    reveal_strlit("feedback");
    reveal_strlit("weapon");
    reveal_strlit("bow");
    reveal_strlit("galloping");
    reveal_strlit("machine");
    reveal_strlit("vibration");
    reveal_strlit("feedback-raw");
    reveal_strlit("vibration-raw");
    reveal_strlit("mode");
    lemma_keyword_facts();
    if parts.len() >= 4 {
        let kw = parts[3];
        assert(kw != "off"@);
        assert(kw != "feedback"@);
        assert(kw != "weapon"@);
        assert(kw != "bow"@);
        assert(kw != "galloping"@);
        assert(kw != "machine"@);
        assert(kw != "vibration"@);
        assert(kw != "mode"@);
    }
}

} // verus!

