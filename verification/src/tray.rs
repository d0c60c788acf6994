//! The tuning state machine: color-zone hysteresis over cents values and a
//! debounce gate for visual updates.
//!
//! Cents are carried in hundredths of a cent, so the thresholds of 3, 10
//! and 1 cents become 300, 1000 and 100 exactly. Instants come from an
//! injectable monotone clock in milliseconds, so tests control elapsed time
//! instead of sleeping.

use vstd::prelude::*;

verus! {

/// Zone boundary for a good tuning, in hundredths of a cent (3 cents).
pub const TUNING_GREEN_THRESHOLD_CENTICENTS: i64 = 300;

/// Zone boundary for a badly off tuning, in hundredths of a cent (10 cents).
pub const TUNING_RED_THRESHOLD_CENTICENTS: i64 = 1000;

/// Hysteresis margin around the zone boundaries (1 cent).
pub const TUNING_HYSTERESIS_CENTICENTS: i64 = 100;

/// Minimum interval between two applied visual updates, in milliseconds.
pub const MIN_UPDATE_INTERVAL_MILLIS: u64 = 200;

/// The three color zones of the tuning indicator.
#[derive(Clone, Copy, PartialEq, Eq, Structural, Debug)]
pub enum TuningColor {
    Green,
    Yellow,
    Red,
}

/// Magnitude of a cents value.
pub open spec fn abs_cents(c: int) -> int {
    if c < 0 {
        -c
    } else {
        c
    }
}

/// The transition function of the color-zone state machine: which zone a
/// cents deviation lands in, given the zone currently shown. Leaving a zone
/// takes a larger excursion than entering it, so a value oscillating near a
/// boundary cannot make the zone flicker.
pub open spec fn next_color(cents: int, current_color: Option<TuningColor>) -> TuningColor {
    let a = abs_cents(cents);
    match current_color {
        Some(TuningColor::Green) => {
            if a <= TUNING_GREEN_THRESHOLD_CENTICENTS + TUNING_HYSTERESIS_CENTICENTS {
                TuningColor::Green
            } else if a >= TUNING_RED_THRESHOLD_CENTICENTS {
                TuningColor::Red
            } else {
                TuningColor::Yellow
            }
        },
        Some(TuningColor::Yellow) => {
            if a <= TUNING_GREEN_THRESHOLD_CENTICENTS - TUNING_HYSTERESIS_CENTICENTS {
                TuningColor::Green
            } else if a >= TUNING_RED_THRESHOLD_CENTICENTS + TUNING_HYSTERESIS_CENTICENTS {
                TuningColor::Red
            } else {
                TuningColor::Yellow
            }
        },
        Some(TuningColor::Red) => {
            if a < TUNING_RED_THRESHOLD_CENTICENTS - TUNING_HYSTERESIS_CENTICENTS {
                if a <= TUNING_GREEN_THRESHOLD_CENTICENTS - TUNING_HYSTERESIS_CENTICENTS {
                    TuningColor::Green
                } else {
                    TuningColor::Yellow
                }
            } else {
                TuningColor::Red
            }
        },
        None => {
            if a <= TUNING_GREEN_THRESHOLD_CENTICENTS {
                TuningColor::Green
            } else if a < TUNING_RED_THRESHOLD_CENTICENTS {
                TuningColor::Yellow
            } else {
                TuningColor::Red
            }
        },
    }
}

/// Classifies a cents deviation into a color zone with hysteresis against
/// the zone currently shown.
pub fn determine_color_with_hysteresis(
    cents_centicents: i64,
    current_color: Option<TuningColor>,
) -> (c: TuningColor)
    requires
        cents_centicents > i64::MIN,
    ensures
        c == next_color(cents_centicents as int, current_color),
{
    let abs_cc: i64 = if cents_centicents < 0 {
        -cents_centicents
    } else {
        cents_centicents
    };
    match current_color {
        Some(TuningColor::Green) => {
            if abs_cc <= TUNING_GREEN_THRESHOLD_CENTICENTS + TUNING_HYSTERESIS_CENTICENTS {
                TuningColor::Green
            } else if abs_cc >= TUNING_RED_THRESHOLD_CENTICENTS {
                TuningColor::Red
            } else {
                TuningColor::Yellow
            }
        },
        Some(TuningColor::Yellow) => {
            if abs_cc <= TUNING_GREEN_THRESHOLD_CENTICENTS - TUNING_HYSTERESIS_CENTICENTS {
                TuningColor::Green
            } else if abs_cc >= TUNING_RED_THRESHOLD_CENTICENTS + TUNING_HYSTERESIS_CENTICENTS {
                TuningColor::Red
            } else {
                TuningColor::Yellow
            }
        },
        Some(TuningColor::Red) => {
            if abs_cc < TUNING_RED_THRESHOLD_CENTICENTS - TUNING_HYSTERESIS_CENTICENTS {
                if abs_cc <= TUNING_GREEN_THRESHOLD_CENTICENTS - TUNING_HYSTERESIS_CENTICENTS {
                    TuningColor::Green
                } else {
                    TuningColor::Yellow
                }
            } else {
                TuningColor::Red
            }
        },
        None => {
            if abs_cc <= TUNING_GREEN_THRESHOLD_CENTICENTS {
                TuningColor::Green
            } else if abs_cc < TUNING_RED_THRESHOLD_CENTICENTS {
                TuningColor::Yellow
            } else {
                TuningColor::Red
            }
        },
    }
}

/// A value already inside the green band with its hysteresis margin keeps
/// the zone Green: oscillating between any two such values never leaves
/// Green once it has been entered.
pub proof fn lemma_green_band_is_stable(cents: int)
    requires
        abs_cents(cents) <= TUNING_GREEN_THRESHOLD_CENTICENTS + TUNING_HYSTERESIS_CENTICENTS,
    ensures
        next_color(cents, Some(TuningColor::Green)) == TuningColor::Green,
        abs_cents(cents) <= TUNING_GREEN_THRESHOLD_CENTICENTS ==> next_color(cents, None)
            == TuningColor::Green,
{
}

/// The zone a cents value produces is a fixed point under that value:
/// re-classifying the produced zone with the same cents returns it, so a
/// constant signal can never make the indicator flicker, whatever zone it
/// started from.
pub proof fn lemma_zone_is_fixed_point(cents: int, current_color: Option<TuningColor>)
    ensures
        next_color(cents, Some(next_color(cents, current_color))) == next_color(
            cents,
            current_color,
        ),
{
}

/// The quantized indicator position: cents clamped to plus or minus fifty,
/// rounded half away from zero to an integer.
pub open spec fn indicator_position_spec(cents: int) -> int {
    let clamped = if cents < -5000 {
        -5000int
    } else if cents > 5000 {
        5000int
    } else {
        cents
    };
    if clamped >= 0 {
        (clamped + 50) / 100
    } else {
        -((-clamped + 50) / 100)
    }
}

/// Quantizes a cents deviation to the indicator position in [-50, 50].
pub fn indicator_position(cents_centicents: i64) -> (pos: i32)
    ensures
        pos == indicator_position_spec(cents_centicents as int),
        -50 <= pos <= 50,
{
    let clamped: i64 = if cents_centicents < -5000 {
        -5000
    } else if cents_centicents > 5000 {
        5000
    } else {
        cents_centicents
    };
    if clamped >= 0 {
        ((clamped + 50) / 100) as i32
    } else {
        (-((-clamped + 50) / 100)) as i32
    }
}

/// What the tray indicator last showed, kept to gate redundant updates.
pub struct TrayIconState {
    pub last_color: Option<TuningColor>,
    pub last_indicator_pos: Option<i32>,
    pub last_update_millis: Option<u64>,
}

/// The debounce gate: a new update is applied on the first ever request,
/// and afterwards only when the minimum interval has elapsed and either
/// the zone changed or the indicator moved by at least three units.
pub open spec fn should_update_spec(
    s: TrayIconState,
    new_color: TuningColor,
    new_pos: int,
    now_millis: int,
) -> bool {
    match s.last_update_millis {
        None => true,
        Some(t) => {
            if now_millis - t < MIN_UPDATE_INTERVAL_MILLIS {
                false
            } else if s.last_color != Some(new_color) {
                true
            } else {
                match s.last_indicator_pos {
                    Some(p) => abs_cents(new_pos - p) >= 3,
                    None => true,
                }
            }
        },
    }
}

impl TrayIconState {
    /// A fresh state that has never applied an update.
    pub fn new() -> (s: Self)
        ensures
            s.last_color is None,
            s.last_indicator_pos is None,
            s.last_update_millis is None,
    {
        TrayIconState { last_color: None, last_indicator_pos: None, last_update_millis: None }
    }

    /// Decides whether a requested update may be applied now. The clock is
    /// monotone: `now_millis` is never earlier than a stored instant.
    pub fn should_update(&self, new_color: TuningColor, new_pos: i32, now_millis: u64) -> (r:
        bool)
        requires
            self.last_update_millis matches Some(t) ==> t <= now_millis,
        ensures
            r == should_update_spec(*self, new_color, new_pos as int, now_millis as int),
    {
        let last_time = match self.last_update_millis {
            None => {
                return true;
            },
            Some(t) => t,
        };
        if now_millis - last_time < MIN_UPDATE_INTERVAL_MILLIS {
            return false;
        }
        let color_changed = match (self.last_color, new_color) {
            (None, _) => true,
            (Some(TuningColor::Green), TuningColor::Green) => false,
            (Some(TuningColor::Yellow), TuningColor::Yellow) => false,
            (Some(TuningColor::Red), TuningColor::Red) => false,
            (Some(_), _) => true,
        };
        if color_changed {
            return true;
        }
        match self.last_indicator_pos {
            Some(last_pos) => {
                let diff: i64 = (new_pos as i64) - (last_pos as i64);
                let moved: i64 = if diff < 0 {
                    -diff
                } else {
                    diff
                };
                moved >= 3
            },
            None => true,
        }
    }

    /// Records an applied update.
    pub fn update(&mut self, color: TuningColor, pos: i32, now_millis: u64)
        ensures
            final(self).last_color == Some(color),
            final(self).last_indicator_pos == Some(pos),
            final(self).last_update_millis == Some(now_millis),
    {
        self.last_color = Some(color);
        self.last_indicator_pos = Some(pos);
        self.last_update_millis = Some(now_millis);
    }

    /// Forgets everything shown, as on a silence reset.
    pub fn reset(&mut self)
        ensures
            final(self).last_color is None,
            final(self).last_indicator_pos is None,
            final(self).last_update_millis is None,
    {
        self.last_color = None;
        self.last_indicator_pos = None;
        self.last_update_millis = None;
    }
}

/// Debounce law: once an update has been applied, a second request is a
/// no-op while the minimum interval has not elapsed, and likewise — at any
/// later time — while the zone is unchanged and the indicator has moved by
/// less than three units.
pub proof fn lemma_debounce_suppresses_redundant_updates(
    applied: TrayIconState,
    color: TuningColor,
    pos: i32,
    t1: u64,
    new_color: TuningColor,
    new_pos: i32,
    t2: u64,
)
    requires
        applied.last_color == Some(color),
        applied.last_indicator_pos == Some(pos),
        applied.last_update_millis == Some(t1),
        t1 <= t2,
        t2 - t1 < MIN_UPDATE_INTERVAL_MILLIS || (new_color == color && abs_cents(
            new_pos - pos,
        ) < 3),
    ensures
        !should_update_spec(applied, new_color, new_pos as int, t2 as int),
{
}

} // verus!
