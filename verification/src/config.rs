//! The shared tuner configuration: channel selection, detection threshold,
//! reference pitch, drop tuning, tray display mode and locale.
//!
//! Out-of-range numeric settings are coerced to the nearest valid bound
//! rather than rejected; only the locale, an enumerated string, fails with
//! a descriptive error naming the allowed values.

use crate::text::str_eq;
use vstd::prelude::*;
use vstd::string::StringExecFns;

verus! {

/// Lowest accepted detection threshold ratio, in thousandths (1.1).
pub const MIN_THRESHOLD_RATIO_MILLI: u32 = 1_100;

/// Highest accepted detection threshold ratio, in thousandths (10.0).
pub const MAX_THRESHOLD_RATIO_MILLI: u32 = 10_000;

/// Lowest accepted custom reference pitch, in milli-hertz (438 Hz).
pub const MIN_CUSTOM_PITCH_MILLIHZ: u64 = 438_000;

/// Highest accepted custom reference pitch, in milli-hertz (445 Hz).
pub const MAX_CUSTOM_PITCH_MILLIHZ: u64 = 445_000;

/// Widest downward tuning shift, in semitones. The shifted reference is
/// computed from a fixed-point ratio table spanning two octaves either
/// way, which covers every practical drop or capo tuning; a wider request
/// is coerced to this bound like the other numeric settings.
pub const MIN_TUNING_SHIFT_SEMITONES: i32 = -24;

/// Widest upward tuning shift, in semitones (two octaves up).
pub const MAX_TUNING_SHIFT_SEMITONES: i32 = 24;

/// The tuner settings read at the top of each analysis cycle.
pub struct TunerConfig {
    /// 0 = left, 1 = right, 2 = average of both.
    pub channel_mode: u32,
    /// Peak-over-noise-floor ratio gating detection, in thousandths.
    pub threshold_ratio_milli: u32,
    /// 0 = standard 440 Hz, 1 = custom, 2 = semitone shift.
    pub pitch_mode: u32,
    /// The custom reference pitch, in milli-hertz.
    pub custom_pitch_millihz: u64,
    /// The semitone shift applied to the reference in shift mode.
    pub tuning_shift: i32,
    /// Whether the lowest string is drop-tuned.
    pub drop_tuning_enabled: bool,
    /// Drop target for the lowest string: 0 = D2, 1 = C#2, 2 = C2, 3 = B1.
    pub drop_tuning_note: u32,
    /// 0 = indicator only, 1 = indicator and note name, 2 = indicator and cents.
    pub tray_icon_mode: u32,
    /// Interface language, one of "en" and "ja".
    pub locale: String,
}

/// The bounds that the constructor establishes and every setter preserves.
pub open spec fn config_well_formed(c: &TunerConfig) -> bool {
    &&& c.channel_mode <= 2
    &&& MIN_THRESHOLD_RATIO_MILLI <= c.threshold_ratio_milli <= MAX_THRESHOLD_RATIO_MILLI
    &&& MIN_CUSTOM_PITCH_MILLIHZ <= c.custom_pitch_millihz <= MAX_CUSTOM_PITCH_MILLIHZ
    &&& MIN_TUNING_SHIFT_SEMITONES <= c.tuning_shift <= MAX_TUNING_SHIFT_SEMITONES
    &&& c.tray_icon_mode <= 2
}

impl TunerConfig {
    /// The defaults: right channel, ratio 2.0, standard pitch, no shift,
    /// no drop tuning, note name shown, English.
    pub fn new() -> (c: Self)
        ensures
            config_well_formed(&c),
            c.channel_mode == 1,
            c.threshold_ratio_milli == 2_000,
            c.pitch_mode == 0,
            c.custom_pitch_millihz == 440_000,
            c.tuning_shift == 0,
            c.drop_tuning_enabled == false,
            c.drop_tuning_note == 0,
            c.tray_icon_mode == 1,
            c.locale@ == "en"@,
    {
        TunerConfig {
            channel_mode: 1,
            threshold_ratio_milli: 2_000,
            pitch_mode: 0,
            custom_pitch_millihz: 440_000,
            tuning_shift: 0,
            drop_tuning_enabled: false,
            drop_tuning_note: 0,
            tray_icon_mode: 1,
            locale: String::from_str("en"),
        }
    }

    /// Selects which captured channel feeds the analysis; values above 2
    /// are coerced to 2 (average).
    pub fn set_channel_mode(&mut self, mode: u32)
        ensures
            final(self).channel_mode == if mode <= 2 {
                mode
            } else {
                2u32
            },
            unchanged_but_channel_mode(old(self), final(self)),
    {
        self.channel_mode = if mode <= 2 {
            mode
        } else {
            2
        };
    }

    /// Sets the detection threshold ratio, coerced into
    /// [`MIN_THRESHOLD_RATIO_MILLI`, `MAX_THRESHOLD_RATIO_MILLI`].
    pub fn set_threshold(&mut self, ratio_milli: u32)
        ensures
            final(self).threshold_ratio_milli == clamp_u32(
                ratio_milli,
                MIN_THRESHOLD_RATIO_MILLI,
                MAX_THRESHOLD_RATIO_MILLI,
            ),
            unchanged_but_threshold(old(self), final(self)),
    {
        self.threshold_ratio_milli = if ratio_milli < MIN_THRESHOLD_RATIO_MILLI {
            MIN_THRESHOLD_RATIO_MILLI
        } else if ratio_milli > MAX_THRESHOLD_RATIO_MILLI {
            MAX_THRESHOLD_RATIO_MILLI
        } else {
            ratio_milli
        };
    }

    /// Chooses how the reference pitch is derived; any value is stored and
    /// unknown modes fall back to the standard reference when read.
    pub fn set_pitch_mode(&mut self, mode: u32)
        ensures
            final(self).pitch_mode == mode,
            unchanged_but_pitch_mode(old(self), final(self)),
    {
        self.pitch_mode = mode;
    }

    /// Sets the custom reference pitch, coerced into
    /// [`MIN_CUSTOM_PITCH_MILLIHZ`, `MAX_CUSTOM_PITCH_MILLIHZ`].
    pub fn set_custom_pitch(&mut self, pitch_millihz: u64)
        ensures
            final(self).custom_pitch_millihz == clamp_u64(
                pitch_millihz,
                MIN_CUSTOM_PITCH_MILLIHZ,
                MAX_CUSTOM_PITCH_MILLIHZ,
            ),
            unchanged_but_custom_pitch(old(self), final(self)),
    {
        self.custom_pitch_millihz = if pitch_millihz < MIN_CUSTOM_PITCH_MILLIHZ {
            MIN_CUSTOM_PITCH_MILLIHZ
        } else if pitch_millihz > MAX_CUSTOM_PITCH_MILLIHZ {
            MAX_CUSTOM_PITCH_MILLIHZ
        } else {
            pitch_millihz
        };
    }

    /// Sets the semitone shift, coerced into plus or minus two octaves.
    pub fn set_tuning_shift(&mut self, semitones: i32)
        ensures
            final(self).tuning_shift == clamp_i32(
                semitones,
                MIN_TUNING_SHIFT_SEMITONES,
                MAX_TUNING_SHIFT_SEMITONES,
            ),
            unchanged_but_tuning_shift(old(self), final(self)),
    {
        self.tuning_shift = if semitones < MIN_TUNING_SHIFT_SEMITONES {
            MIN_TUNING_SHIFT_SEMITONES
        } else if semitones > MAX_TUNING_SHIFT_SEMITONES {
            MAX_TUNING_SHIFT_SEMITONES
        } else {
            semitones
        };
    }

    /// Enables or disables the drop tuning of the lowest string and picks
    /// its target note; unknown notes fall back to the standard E2 target
    /// when read.
    pub fn set_drop_tuning(&mut self, enabled: bool, note: u32)
        ensures
            final(self).drop_tuning_enabled == enabled,
            final(self).drop_tuning_note == note,
            unchanged_but_drop_tuning(old(self), final(self)),
    {
        self.drop_tuning_enabled = enabled;
        self.drop_tuning_note = note;
    }

    /// Selects what the tray icon shows; values above 2 are coerced to 2.
    pub fn set_tray_icon_mode(&mut self, mode: u32)
        ensures
            final(self).tray_icon_mode == if mode <= 2 {
                mode
            } else {
                2u32
            },
            unchanged_but_tray_icon_mode(old(self), final(self)),
    {
        self.tray_icon_mode = if mode <= 2 {
            mode
        } else {
            2
        };
    }

    /// Sets the interface language. Exactly the locales "en" and "ja" are
    /// accepted; anything else fails with an error naming them.
    pub fn set_locale(&mut self, locale: String) -> (r: Result<(), String>)
        ensures
            r is Ok <==> (locale@ == "en"@ || locale@ == "ja"@),
            r is Ok ==> final(self).locale@ == locale@ && unchanged_but_locale(
                old(self),
                final(self),
            ),
            r is Err ==> *final(self) == *old(self),
            r matches Err(e) ==> e@ == "Invalid locale. Must be one of: en, ja"@,
    {
        if str_eq(locale.as_str(), "en") || str_eq(locale.as_str(), "ja") {
            self.locale = locale;
            Ok(())
        } else {
            Err(String::from_str("Invalid locale. Must be one of: en, ja"))
        }
    }
}

/// Localized tray menu labels: the show-window entry and the quit entry.
pub fn get_tray_menu_text(locale: &str) -> (r: (&'static str, &'static str))
    ensures
        locale@ == "ja"@ ==> r.0@ == "\u{30a6}\u{30a3}\u{30f3}\u{30c9}\u{30a6}\u{3092}\u{8868}\u{793a}"@
            && r.1@ == "\u{7d42}\u{4e86}"@,
        locale@ != "ja"@ ==> r.0@ == "Show Window"@ && r.1@ == "Quit"@,
{
    if str_eq(locale, "ja") {
        ("\u{30a6}\u{30a3}\u{30f3}\u{30c9}\u{30a6}\u{3092}\u{8868}\u{793a}", "\u{7d42}\u{4e86}")
    } else {
        ("Show Window", "Quit")
    }
}

/// A value coerced into an inclusive range.
pub open spec fn clamp_u32(v: u32, lo: u32, hi: u32) -> u32 {
    if v < lo {
        lo
    } else if v > hi {
        hi
    } else {
        v
    }
}

/// A value coerced into an inclusive range.
pub open spec fn clamp_u64(v: u64, lo: u64, hi: u64) -> u64 {
    if v < lo {
        lo
    } else if v > hi {
        hi
    } else {
        v
    }
}

/// A value coerced into an inclusive range.
pub open spec fn clamp_i32(v: i32, lo: i32, hi: i32) -> i32 {
    if v < lo {
        lo
    } else if v > hi {
        hi
    } else {
        v
    }
}

/// Every field but the channel mode is kept.
pub open spec fn unchanged_but_channel_mode(a: &TunerConfig, b: &TunerConfig) -> bool {
    &&& a.threshold_ratio_milli == b.threshold_ratio_milli
    &&& a.pitch_mode == b.pitch_mode
    &&& a.custom_pitch_millihz == b.custom_pitch_millihz
    &&& a.tuning_shift == b.tuning_shift
    &&& a.drop_tuning_enabled == b.drop_tuning_enabled
    &&& a.drop_tuning_note == b.drop_tuning_note
    &&& a.tray_icon_mode == b.tray_icon_mode
    &&& a.locale == b.locale
}

/// Every field but the threshold is kept.
pub open spec fn unchanged_but_threshold(a: &TunerConfig, b: &TunerConfig) -> bool {
    &&& a.channel_mode == b.channel_mode
    &&& a.pitch_mode == b.pitch_mode
    &&& a.custom_pitch_millihz == b.custom_pitch_millihz
    &&& a.tuning_shift == b.tuning_shift
    &&& a.drop_tuning_enabled == b.drop_tuning_enabled
    &&& a.drop_tuning_note == b.drop_tuning_note
    &&& a.tray_icon_mode == b.tray_icon_mode
    &&& a.locale == b.locale
}

/// Every field but the pitch mode is kept.
pub open spec fn unchanged_but_pitch_mode(a: &TunerConfig, b: &TunerConfig) -> bool {
    &&& a.channel_mode == b.channel_mode
    &&& a.threshold_ratio_milli == b.threshold_ratio_milli
    &&& a.custom_pitch_millihz == b.custom_pitch_millihz
    &&& a.tuning_shift == b.tuning_shift
    &&& a.drop_tuning_enabled == b.drop_tuning_enabled
    &&& a.drop_tuning_note == b.drop_tuning_note
    &&& a.tray_icon_mode == b.tray_icon_mode
    &&& a.locale == b.locale
}

/// Every field but the custom pitch is kept.
pub open spec fn unchanged_but_custom_pitch(a: &TunerConfig, b: &TunerConfig) -> bool {
    &&& a.channel_mode == b.channel_mode
    &&& a.threshold_ratio_milli == b.threshold_ratio_milli
    &&& a.pitch_mode == b.pitch_mode
    &&& a.tuning_shift == b.tuning_shift
    &&& a.drop_tuning_enabled == b.drop_tuning_enabled
    &&& a.drop_tuning_note == b.drop_tuning_note
    &&& a.tray_icon_mode == b.tray_icon_mode
    &&& a.locale == b.locale
}

/// Every field but the tuning shift is kept.
pub open spec fn unchanged_but_tuning_shift(a: &TunerConfig, b: &TunerConfig) -> bool {
    &&& a.channel_mode == b.channel_mode
    &&& a.threshold_ratio_milli == b.threshold_ratio_milli
    &&& a.pitch_mode == b.pitch_mode
    &&& a.custom_pitch_millihz == b.custom_pitch_millihz
    &&& a.drop_tuning_enabled == b.drop_tuning_enabled
    &&& a.drop_tuning_note == b.drop_tuning_note
    &&& a.tray_icon_mode == b.tray_icon_mode
    &&& a.locale == b.locale
}

/// Every field but the drop tuning pair is kept.
pub open spec fn unchanged_but_drop_tuning(a: &TunerConfig, b: &TunerConfig) -> bool {
    &&& a.channel_mode == b.channel_mode
    &&& a.threshold_ratio_milli == b.threshold_ratio_milli
    &&& a.pitch_mode == b.pitch_mode
    &&& a.custom_pitch_millihz == b.custom_pitch_millihz
    &&& a.tuning_shift == b.tuning_shift
    &&& a.tray_icon_mode == b.tray_icon_mode
    &&& a.locale == b.locale
}

/// Every field but the tray icon mode is kept.
pub open spec fn unchanged_but_tray_icon_mode(a: &TunerConfig, b: &TunerConfig) -> bool {
    &&& a.channel_mode == b.channel_mode
    &&& a.threshold_ratio_milli == b.threshold_ratio_milli
    &&& a.pitch_mode == b.pitch_mode
    &&& a.custom_pitch_millihz == b.custom_pitch_millihz
    &&& a.tuning_shift == b.tuning_shift
    &&& a.drop_tuning_enabled == b.drop_tuning_enabled
    &&& a.drop_tuning_note == b.drop_tuning_note
    &&& a.locale == b.locale
}

/// Every field but the locale is kept.
pub open spec fn unchanged_but_locale(a: &TunerConfig, b: &TunerConfig) -> bool {
    &&& a.channel_mode == b.channel_mode
    &&& a.threshold_ratio_milli == b.threshold_ratio_milli
    &&& a.pitch_mode == b.pitch_mode
    &&& a.custom_pitch_millihz == b.custom_pitch_millihz
    &&& a.tuning_shift == b.tuning_shift
    &&& a.drop_tuning_enabled == b.drop_tuning_enabled
    &&& a.drop_tuning_note == b.drop_tuning_note
    &&& a.tray_icon_mode == b.tray_icon_mode
}

} // verus!
