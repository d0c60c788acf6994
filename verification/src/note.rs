//! The note and cents mapper: from a stabilized frequency and its offset
//! from the reference A4 to a note name, the nearest string target, and
//! the cents deviation from the nearest chromatic semitone.
//!
//! The offset from A4 arrives in hundredths of a cent (one semitone is
//! exactly 10000), measured by the caller as `1200 * log2(freq / A4)`
//! cents; everything from there on is exact integer arithmetic.

use crate::config::config_well_formed;
use crate::config::TunerConfig;
use crate::frequency::abs_int;
use crate::frequency::div_toward_zero;
use crate::frequency::guitar_target_millihz;
use crate::frequency::guitar_target;
use crate::text::decimal_of;
use crate::text::i64_to_string;
use vstd::prelude::*;
use vstd::string::StringExecFns;

verus! {

/// The fixed-point semitone ratios `2^(k/12)` in millionths, `k` from 0
/// to 11.
pub open spec fn semitone_ratio_micro_spec(k: int) -> u64 {
    if k == 0 {
        1_000_000
    } else if k == 1 {
        1_059_463
    } else if k == 2 {
        1_122_462
    } else if k == 3 {
        1_189_207
    } else if k == 4 {
        1_259_921
    } else if k == 5 {
        1_334_840
    } else if k == 6 {
        1_414_214
    } else if k == 7 {
        1_498_307
    } else if k == 8 {
        1_587_401
    } else if k == 9 {
        1_681_793
    } else if k == 10 {
        1_781_797
    } else {
        1_887_749
    }
}

/// One semitone ratio by index.
fn semitone_ratio_micro(k: i32) -> (r: u64)
    requires
        0 <= k < 12,
    ensures
        r == semitone_ratio_micro_spec(k as int),
{
    if k == 0 {
        1_000_000
    } else if k == 1 {
        1_059_463
    } else if k == 2 {
        1_122_462
    } else if k == 3 {
        1_189_207
    } else if k == 4 {
        1_259_921
    } else if k == 5 {
        1_334_840
    } else if k == 6 {
        1_414_214
    } else if k == 7 {
        1_498_307
    } else if k == 8 {
        1_587_401
    } else if k == 9 {
        1_681_793
    } else if k == 10 {
        1_781_797
    } else {
        1_887_749
    }
}

/// The reference A4 for a shift of `s` semitones: `440 * 2^(s/12)` hertz
/// in fixed point, computed from the within-octave ratio and whole-octave
/// doublings or halvings.
pub open spec fn shifted_a4_spec(s: int) -> int {
    let k = ((s % 12) + 12) % 12;
    let q = (s - k) / 12;
    let base = 440_000 * semitone_ratio_micro_spec(k) / 1_000_000;
    if q <= -2 {
        base / 4
    } else if q == -1 {
        base / 2
    } else if q == 0 {
        base
    } else if q == 1 {
        base * 2
    } else {
        base * 4
    }
}

/// The effective reference A4 in milli-hertz for a configuration:
/// 440 Hz in standard mode (and for unknown modes), the clamped custom
/// pitch in custom mode, and the shifted reference in shift mode.
pub open spec fn effective_a4_spec(cfg: &TunerConfig) -> int {
    if cfg.pitch_mode == 0 {
        440_000
    } else if cfg.pitch_mode == 1 {
        cfg.custom_pitch_millihz as int
    } else if cfg.pitch_mode == 2 {
        shifted_a4_spec(cfg.tuning_shift as int)
    } else {
        440_000
    }
}

/// Computes the effective reference A4 in milli-hertz.
pub fn get_effective_a4(cfg: &TunerConfig) -> (a4: u64)
    requires
        config_well_formed(cfg),
    ensures
        a4 == effective_a4_spec(cfg),
        110_000 <= a4 <= 4_000_000,
{
    if cfg.pitch_mode == 0 {
        440_000
    } else if cfg.pitch_mode == 1 {
        cfg.custom_pitch_millihz
    } else if cfg.pitch_mode == 2 {
        let s: i32 = cfg.tuning_shift;
        let rem: i32 = ((s % 12) + 12) % 12;
        let q: i32 = (s - rem) / 12;
        let base: u64 = 440_000 * semitone_ratio_micro(rem) / 1_000_000;
        proof {
            assert(rem as int == ((s as int % 12) + 12) % 12);
            assert(q as int == (s as int - rem as int) / 12);
            assert(1_000_000 <= semitone_ratio_micro_spec(rem as int) <= 1_887_749);
            assert(440_000 <= base <= 830_609) by {
                vstd::arithmetic::div_mod::lemma_div_is_ordered(
                    440_000int * 1_000_000,
                    440_000 * (semitone_ratio_micro_spec(rem as int) as int),
                    1_000_000,
                );
                vstd::arithmetic::div_mod::lemma_div_is_ordered(
                    440_000 * (semitone_ratio_micro_spec(rem as int) as int),
                    440_000int * 1_887_749,
                    1_000_000,
                );
            }
        }
        if q <= -2 {
            base / 4
        } else if q == -1 {
            base / 2
        } else if q == 0 {
            base
        } else if q == 1 {
            base * 2
        } else {
            base * 4
        }
    } else {
        440_000
    }
}

/// The drop-tuning target for the lowest string in milli-hertz, or the
/// standard E2 when drop tuning is off or the note is unknown.
pub open spec fn string6_target_spec(cfg: &TunerConfig) -> u64 {
    if cfg.drop_tuning_enabled {
        if cfg.drop_tuning_note == 0 {
            73_420
        } else if cfg.drop_tuning_note == 1 {
            69_300
        } else if cfg.drop_tuning_note == 2 {
            65_410
        } else if cfg.drop_tuning_note == 3 {
            61_740
        } else {
            82_410
        }
    } else {
        82_410
    }
}

/// Computes the lowest string's target: D2, C#2, C2 or B1 when drop-tuned,
/// E2 otherwise.
pub fn get_string6_target_freq(cfg: &TunerConfig) -> (t: u64)
    ensures
        t == string6_target_spec(cfg),
{
    if cfg.drop_tuning_enabled {
        if cfg.drop_tuning_note == 0 {
            73_420
        } else if cfg.drop_tuning_note == 1 {
            69_300
        } else if cfg.drop_tuning_note == 2 {
            65_410
        } else if cfg.drop_tuning_note == 3 {
            61_740
        } else {
            82_410
        }
    } else {
        82_410
    }
}

/// The string target at index `i` before scaling: the drop-aware lowest
/// string at index 0, the standard targets above it.
pub open spec fn base_target_spec(cfg: &TunerConfig, i: int) -> u64 {
    if i == 0 {
        string6_target_spec(cfg)
    } else {
        guitar_target_millihz(i)
    }
}

/// The string target at index `i` scaled by the active reference pitch,
/// so the whole table follows `A4_eff / 440`.
pub open spec fn scaled_target_spec(cfg: &TunerConfig, i: int) -> int {
    base_target_spec(cfg, i) * effective_a4_spec(cfg) / 440_000
}

/// The scaled target closest to `freq` by absolute difference, scanning
/// from index `i` upward; the earlier of two equally close targets wins.
pub open spec fn closest_scaled_target(freq: int, cfg: &TunerConfig, i: int) -> int
    decreases 5 - i,
{
    if i >= 5 {
        scaled_target_spec(cfg, 5)
    } else {
        let rest = closest_scaled_target(freq, cfg, i + 1);
        let cur = scaled_target_spec(cfg, i);
        if abs_int(freq - cur) <= abs_int(freq - rest) {
            cur
        } else {
            rest
        }
    }
}

/// One scaled target.
fn scaled_target(cfg: &TunerConfig, i: usize, a4: u64) -> (t: u64)
    requires
        i < 6,
        config_well_formed(cfg),
        a4 == effective_a4_spec(cfg),
        110_000 <= a4 <= 4_000_000,
    ensures
        t == scaled_target_spec(cfg, i as int),
        t <= 3_000_000,
{
    let base: u64 = if i == 0 {
        get_string6_target_freq(cfg)
    } else {
        guitar_target(i)
    };
    proof {
        assert(base <= 329_630);
        assert((base as int) * (a4 as int) <= 329_630int * 4_000_000) by (nonlinear_arith)
            requires
                base <= 329_630,
                a4 <= 4_000_000,
        ;
        vstd::arithmetic::div_mod::lemma_div_is_ordered(
            (base as int) * (a4 as int),
            329_630int * 4_000_000,
            440_000,
        );
    }
    base * a4 / 440_000
}

/// The nearest whole semitone to an offset in hundredths of a cent,
/// rounding halves away from zero.
pub open spec fn nearest_semitone(cents_from_a4: int) -> int {
    if cents_from_a4 >= 0 {
        (cents_from_a4 + 5_000) / 10_000
    } else {
        -((-cents_from_a4 + 5_000) / 10_000)
    }
}

/// The chromatic index of a MIDI note, 0 = C through 11 = B.
pub open spec fn note_index_of(midi: int) -> int {
    ((midi % 12) + 12) % 12
}

/// The octave of a MIDI note under truncating division, so that A4 is
/// MIDI 69 in octave 4.
pub open spec fn octave_of(midi: int) -> int {
    div_toward_zero(midi, 12) - 1
}

/// The letters of one chromatic step.
pub open spec fn note_letter(idx: int) -> Seq<char> {
    if idx == 0 {
        seq!['C']
    } else if idx == 1 {
        seq!['C', '#']
    } else if idx == 2 {
        seq!['D']
    } else if idx == 3 {
        seq!['D', '#']
    } else if idx == 4 {
        seq!['E']
    } else if idx == 5 {
        seq!['F']
    } else if idx == 6 {
        seq!['F', '#']
    } else if idx == 7 {
        seq!['G']
    } else if idx == 8 {
        seq!['G', '#']
    } else if idx == 9 {
        seq!['A']
    } else if idx == 10 {
        seq!['A', '#']
    } else {
        seq!['B']
    }
}

/// The full name of a MIDI note: its letters followed by its octave.
pub open spec fn note_name_spec(midi: int) -> Seq<char> {
    note_letter(note_index_of(midi)) + decimal_of(octave_of(midi))
}

/// The letters of one chromatic step.
fn note_letter_str(idx: i64) -> (s: &'static str)
    requires
        0 <= idx < 12,
    ensures
        s@ == note_letter(idx as int),
{
    proof {
        reveal_strlit("C");
        reveal_strlit("C#");
        reveal_strlit("D");
        reveal_strlit("D#");
        reveal_strlit("E");
        reveal_strlit("F");
        reveal_strlit("F#");
        reveal_strlit("G");
        reveal_strlit("G#");
        reveal_strlit("A");
        reveal_strlit("A#");
        reveal_strlit("B");
    }
    let s: &'static str = if idx == 0 {
        "C"
    } else if idx == 1 {
        "C#"
    } else if idx == 2 {
        "D"
    } else if idx == 3 {
        "D#"
    } else if idx == 4 {
        "E"
    } else if idx == 5 {
        "F"
    } else if idx == 6 {
        "F#"
    } else if idx == 7 {
        "G"
    } else if idx == 8 {
        "G#"
    } else if idx == 9 {
        "A"
    } else if idx == 10 {
        "A#"
    } else {
        "B"
    };
    proof {
        assert(s@ =~= note_letter(idx as int));
    }
    s
}

/// The Euclidean remainder of a value by twelve.
fn mod12(v: i64) -> (r: i64)
    ensures
        r == (v as int) % 12,
        0 <= r < 12,
{
    if v >= 0 {
        ((v as u64) % 12) as i64
    } else {
        let magnitude: u128 = (-(v as i128)) as u128;
        let rm: u128 = magnitude % 12;
        let r: i64 = if rm == 0 {
            0
        } else {
            (12 - rm) as i64
        };
        proof {
            lemma_neg_mod(v as int, magnitude as int, rm as int);
        }
        r
    }
}

/// Relates the remainder of a negative value to that of its magnitude.
proof fn lemma_neg_mod(v: int, magnitude: int, rm: int)
    requires
        v < 0,
        magnitude == -v,
        rm == magnitude % 12,
    ensures
        v % 12 == if rm == 0 {
            0int
        } else {
            12 - rm
        },
{
    vstd::arithmetic::div_mod::lemma_fundamental_div_mod(magnitude, 12);
    vstd::arithmetic::div_mod::lemma_fundamental_div_mod_converse(
        v,
        12,
        if rm == 0 {
            -(magnitude / 12)
        } else {
            -(magnitude / 12) - 1
        },
        if rm == 0 {
            0int
        } else {
            12 - rm
        },
    );
}

/// Truncating division of a value by twelve.
fn div12_trunc(v: i64) -> (r: i64)
    ensures
        r == div_toward_zero(v as int, 12),
{
    if v >= 0 {
        ((v as u64) / 12) as i64
    } else {
        let magnitude: u128 = (-(v as i128)) as u128;
        -((magnitude / 12) as i64)
    }
}

/// Maps a stabilized frequency to its note name, the closest scaled string
/// target in milli-hertz, and the cents deviation from the nearest
/// chromatic semitone in hundredths of a cent. `cents_from_a4_centicents`
/// is the offset of the frequency from the effective A4, in hundredths of
/// a cent.
pub fn calculate_note_info(
    freq_millihz: u64,
    cents_from_a4_centicents: i64,
    cfg: &TunerConfig,
) -> (r: (String, u64, i64))
    requires
        config_well_formed(cfg),
    ensures
        ({
            let n = nearest_semitone(cents_from_a4_centicents as int);
            &&& r.0@ == note_name_spec(69 + n)
            &&& r.1 == closest_scaled_target(freq_millihz as int, cfg, 0)
            &&& r.2 == cents_from_a4_centicents - n * 10_000
            &&& -5_000 <= r.2 <= 5_000
        }),
{
    let cc: i64 = cents_from_a4_centicents;
    let n_wide: i128 = if cc >= 0 {
        (((cc as u64) + 5_000) / 10_000) as i128
    } else {
        -((((-(cc as i128)) as u128 + 5_000) / 10_000) as i128)
    };
    proof {
        assert(n_wide == nearest_semitone(cc as int));
        let m = abs_int(cc as int) + 5_000;
        vstd::arithmetic::div_mod::lemma_fundamental_div_mod(m, 10_000);
        vstd::arithmetic::div_mod::lemma_mod_bound(m, 10_000);
        vstd::arithmetic::div_mod::lemma_div_is_ordered(m, 0x8000_0000_0000_0000int + 5_000, 10_000);
        assert(-5_000 <= cc as int - n_wide * 10_000 <= 5_000);
    }
    let cents_dev: i64 = ((cc as i128) - n_wide * 10_000) as i64;
    let midi_wide: i128 = 69 + n_wide;
    let midi: i64 = midi_wide as i64;
    let idx: i64 = mod12(midi);
    let octave: i64 = div12_trunc(midi) - 1;
    let mut name = String::new();
    name.append(note_letter_str(idx));
    let octave_digits = i64_to_string(octave);
    name.append(octave_digits.as_str());
    proof {
        assert(name@ =~= note_name_spec(69 + nearest_semitone(cc as int)));
    }
    let a4 = get_effective_a4(cfg);
    let mut best: u64 = scaled_target(cfg, 5, a4);
    let mut i: usize = 5;
    while i > 0
        invariant
            i <= 5,
            config_well_formed(cfg),
            a4 == effective_a4_spec(cfg),
            110_000 <= a4 <= 4_000_000,
            best == closest_scaled_target(freq_millihz as int, cfg, i as int),
            best <= 3_000_000,
        decreases i,
    {
        i = i - 1;
        let cur = scaled_target(cfg, i, a4);
        let cur_diff: u64 = if freq_millihz >= cur {
            freq_millihz - cur
        } else {
            cur - freq_millihz
        };
        let best_diff: u64 = if freq_millihz >= best {
            freq_millihz - best
        } else {
            best - freq_millihz
        };
        if cur_diff <= best_diff {
            best = cur;
        }
    }
    (name, best, cents_dev)
}

} // verus!
