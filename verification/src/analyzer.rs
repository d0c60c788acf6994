//! The analysis scheduler's state: the shared sample buffer, the session
//! lifecycle, the silence timeout, and the per-cycle decisions that turn a
//! resolved fundamental into stable tuning output.
//!
//! The real-time loop itself — sleeping, capture, the transform — runs
//! outside this crate and calls in here with plain integers: samples as
//! their 32-bit patterns, instants in milliseconds from a monotone clock.

use crate::config::config_well_formed;
use crate::config::TunerConfig;
use crate::history::FrequencyHistory;
use crate::note::calculate_note_info;
use crate::note::nearest_semitone;
use crate::note::closest_scaled_target;
use crate::note::note_name_spec;
use crate::frequency::is_guitar_frequency;
use crate::frequency::is_guitar_frequency_spec;
use crate::sorting::median_of;
use crate::text::decimal_digits;
use crate::text::decimal_of;
use crate::text::i64_to_string;
use crate::text::u64_to_string;
use crate::tray::indicator_position;
use crate::tray::indicator_position_spec;
use crate::tray::determine_color_with_hysteresis;
use crate::tray::next_color;
use crate::tray::should_update_spec;
use crate::tray::TrayIconState;
use crate::tray::TuningColor;
use vstd::prelude::*;
use vstd::string::StringExecFns;

verus! {

/// Samples per analysis frame; the transform is zero-padded to twice this.
pub const FFT_SIZE: usize = 16384;

/// Milliseconds without an accepted detection before the reset fires.
pub const RESET_TIMEOUT_MILLIS: u64 = 3_000;

/// The bounded buffer that the capture producer fills and the analysis
/// worker snapshots. Samples are held as the bit patterns of the captured
/// 32-bit values; the buffer never reads them, it only bounds and orders
/// them. The oldest samples leave first when the capacity is exceeded.
pub struct SampleBuffer {
    samples: Vec<u32>,
    capacity: usize,
}

impl View for SampleBuffer {
    type V = Seq<u32>;

    closed spec fn view(&self) -> Seq<u32> {
        self.samples@
    }
}

impl SampleBuffer {
    /// The capacity the buffer was made with.
    pub closed spec fn spec_capacity(&self) -> usize {
        self.capacity
    }

    /// The length never exceeds the capacity.
    pub open spec fn well_formed(&self) -> bool {
        self@.len() <= self.spec_capacity()
    }

    /// An empty buffer for one analysis frame of `channels` interleaved
    /// channels.
    pub fn new(channels: usize) -> (b: Self)
        requires
            1 <= channels,
            FFT_SIZE * channels <= usize::MAX,
        ensures
            b@ == Seq::<u32>::empty(),
            b.spec_capacity() == FFT_SIZE * channels,
            b.well_formed(),
    {
        SampleBuffer { samples: Vec::new(), capacity: FFT_SIZE * channels }
    }

    /// How many samples are held.
    pub fn len(&self) -> (n: usize)
        ensures
            n == self@.len(),
    {
        self.samples.len()
    }

    /// Appends a captured chunk, then discards from the front whatever
    /// exceeds the capacity.
    pub fn push_chunk(&mut self, chunk: &Vec<u32>)
        requires
            old(self).well_formed(),
            old(self)@.len() + chunk@.len() <= usize::MAX,
        ensures
            final(self).well_formed(),
            final(self).spec_capacity() == old(self).spec_capacity(),
            old(self)@.len() + chunk@.len() <= old(self).spec_capacity() ==> final(self)@ == old(self)@ + chunk@,
            old(self)@.len() + chunk@.len() > old(self).spec_capacity() ==> final(self)@ == (old(self)@ + chunk@).skip(old(self)@.len() + chunk@.len() - old(self).spec_capacity()),
    {
        self.samples.extend_from_slice(chunk.as_slice());
        proof {
            assert(self.samples@ =~= old(self)@ + chunk@);
        }
        if self.samples.len() > self.capacity {
            let excess: usize = self.samples.len() - self.capacity;
            let kept = self.samples.split_off(excess);
            self.samples = kept;
            proof {
                assert(self.samples@ =~= (old(self)@ + chunk@).skip(
                    old(self)@.len() + chunk@.len() - self.capacity,
                ));
            }
        }
    }

    /// A copy of everything held, oldest first.
    pub fn snapshot(&self) -> (s: Vec<u32>)
        ensures
            s@ == self@,
    {
        let s = self.samples.clone();
        proof {
            assert(s@ =~= self.samples@);
        }
        s
    }

    /// Drops everything held.
    pub fn clear(&mut self)
        ensures
            final(self)@ == Seq::<u32>::empty(),
            final(self).spec_capacity() == old(self).spec_capacity(),
            final(self).well_formed(),
    {
        self.samples.clear();
    }
}

/// Selects one mono sample per interleaved frame of a snapshot: the left
/// channel (mode 0) or the right channel (mode 1). Averaging the channels
/// (mode 2) is arithmetic on the sample values and is done by the caller
/// that owns them.
pub fn select_channel(samples: &Vec<u32>, channels: usize, mode: u32) -> (mono: Vec<u32>)
    requires
        channels == 2,
        mode == 0 || mode == 1,
    ensures
        mono@.len() == (samples@.len() + 1) / 2,
        forall|k: int|
            0 <= k && 2 * k + 1 < samples@.len() ==> mono@[k] == samples@[2 * k + mode as int],
        samples@.len() % 2 == 1 ==> mono@[mono@.len() - 1] == samples@[samples@.len() - 1],
{
    let mut mono: Vec<u32> = Vec::new();
    let take: usize = if mode == 0 {
        0
    } else {
        1
    };
    let mut i: usize = 0;
    while i + 1 < samples.len()
        invariant
            mode == 0 || mode == 1,
            take == mode,
            i == 2 * mono@.len(),
            i <= samples@.len(),
            forall|k: int|
                0 <= k < mono@.len() ==> mono@[k] == samples@[2 * k + mode as int],
        decreases samples@.len() - i,
    {
        mono.push(samples[i + take]);
        i = i + 2;
    }
    if i < samples.len() {
        mono.push(samples[i]);
        proof {
            assert(samples@.len() == 2 * (mono@.len() - 1) + 1);
        }
    }
    mono
}

/// Tracks how long the pipeline has gone without an accepted detection,
/// and whether the reset for the current quiet spell has already fired.
pub struct SilenceTracker {
    /// When the last stable detection was accepted.
    pub last_valid_millis: Option<u64>,
    /// Whether the pipeline is in the reset sub-state.
    pub is_reset: bool,
}

/// Whether the silence timeout is due: something was once detected, more
/// than the timeout has passed since, and the reset has not fired yet.
pub open spec fn silence_reset_due(s: SilenceTracker, now_millis: int) -> bool {
    &&& s.last_valid_millis matches Some(t) && now_millis - t > RESET_TIMEOUT_MILLIS
    &&& !s.is_reset
}

impl SilenceTracker {
    /// A fresh tracker: nothing detected yet, already in the reset
    /// sub-state so that the quiet before the first detection fires
    /// nothing.
    pub fn new() -> (s: Self)
        ensures
            s.last_valid_millis is None,
            s.is_reset == true,
    {
        SilenceTracker { last_valid_millis: None, is_reset: true }
    }

    /// Checks the timeout at `now_millis` and enters the reset sub-state
    /// when it fires; the result says whether to emit the reset signal.
    /// The clock is monotone: `now_millis` is never earlier than a stored
    /// instant.
    pub fn check_timeout(&mut self, now_millis: u64) -> (fire: bool)
        requires
            old(self).last_valid_millis matches Some(t) ==> t <= now_millis,
        ensures
            fire == silence_reset_due(*old(self), now_millis as int),
            final(self).is_reset == (old(self).is_reset || fire),
            final(self).last_valid_millis == old(self).last_valid_millis,
    {
        match self.last_valid_millis {
            Some(t) => {
                if now_millis - t > RESET_TIMEOUT_MILLIS && !self.is_reset {
                    self.is_reset = true;
                    true
                } else {
                    false
                }
            },
            None => false,
        }
    }

    /// Records an accepted detection, leaving the reset sub-state.
    pub fn note_detection(&mut self, now_millis: u64)
        ensures
            final(self).last_valid_millis == Some(now_millis),
            final(self).is_reset == false,
    {
        self.last_valid_millis = Some(now_millis);
        self.is_reset = false;
    }
}

/// Silence law: once the timeout has fired, it cannot fire again for the
/// same quiet spell — only a new accepted detection re-arms it.
pub proof fn lemma_reset_fires_once(s: SilenceTracker, now_millis: int, later_millis: int)
    requires
        s.is_reset,
    ensures
        !silence_reset_due(s, later_millis),
{
}

/// The session lifecycle: a cooperative stop flag and a monotonically
/// increasing session identifier that fences out stale analysis loops.
pub struct SessionControl {
    /// The identifier of the session allowed to run.
    pub current_id: u64,
    /// Whether the running session has been asked to stop.
    pub stop_requested: bool,
}

impl SessionControl {
    /// No session yet.
    pub fn new() -> (s: Self)
        ensures
            s.current_id == 0,
            s.stop_requested == false,
    {
        SessionControl { current_id: 0, stop_requested: false }
    }

    /// Asks the running session to stop.
    pub fn request_stop(&mut self)
        ensures
            final(self).stop_requested == true,
            final(self).current_id == old(self).current_id,
    {
        self.stop_requested = true;
    }

    /// Starts a new session: clears the stop flag and issues a fresh
    /// identifier, strictly larger than every earlier one.
    pub fn begin_session(&mut self) -> (id: u64)
        requires
            old(self).current_id < u64::MAX,
        ensures
            final(self).current_id == old(self).current_id + 1,
            final(self).stop_requested == false,
            id == final(self).current_id,
    {
        self.stop_requested = false;
        self.current_id = self.current_id + 1;
        self.current_id
    }

    /// Whether the loop iteration of the session that captured
    /// `session_id` may continue: no stop requested and its identifier is
    /// still the authoritative one, so a stale session exits immediately
    /// instead of racing a fresh one.
    pub fn may_continue(&self, session_id: u64) -> (r: bool)
        ensures
            r == (!self.stop_requested && session_id == self.current_id),
    {
        !self.stop_requested && session_id == self.current_id
    }
}

/// Whether a located peak clears the configured threshold over the noise
/// floor: `max_val > noise_floor * ratio`, with the ratio in thousandths.
pub open spec fn peak_over_threshold(max_val: int, noise_floor: int, ratio_milli: int) -> bool {
    1000 * max_val > noise_floor * ratio_milli
}

/// Decides whether the located peak is a valid signal rather than noise.
pub fn peak_exceeds_threshold(max_val: u64, noise_floor: u64, ratio_milli: u32) -> (r: bool)
    ensures
        r == peak_over_threshold(max_val as int, noise_floor as int, ratio_milli as int),
{
    proof {
        assert((noise_floor as u128) * (ratio_milli as u128) <= 18_446_744_073_709_551_615u128
            * 4_294_967_295) by (nonlinear_arith)
            requires
                (noise_floor as u128) <= 18_446_744_073_709_551_615u128,
                (ratio_milli as u128) <= 4_294_967_295u128,
        ;
    }
    1000 * (max_val as u128) > (noise_floor as u128) * (ratio_milli as u128)
}

/// The last accepted tuning: note name, stabilized frequency and cents
/// deviation, as the presentation layer reads it back.
pub struct TuningInfo {
    /// The note name, such as "A4"; empty before the first detection.
    pub note_name: String,
    /// The stabilized frequency in milli-hertz.
    pub frequency_millihz: u64,
    /// The cents deviation in hundredths of a cent.
    pub cents_centicents: i64,
}

impl TuningInfo {
    /// The empty tuning shown before any detection and after a reset.
    pub fn empty() -> (t: Self)
        ensures
            t.note_name@ == Seq::<char>::empty(),
            t.frequency_millihz == 0,
            t.cents_centicents == 0,
    {
        TuningInfo { note_name: String::new(), frequency_millihz: 0, cents_centicents: 0 }
    }
}

impl Default for TuningInfo {
    /// The empty tuning.
    fn default() -> (t: Self)
        ensures
            t.note_name@ == Seq::<char>::empty(),
            t.frequency_millihz == 0,
            t.cents_centicents == 0,
    {
        TuningInfo::empty()
    }
}

/// What one accepted cycle decided for the presentation layer.
pub struct TuningUpdate {
    /// The note name for display.
    pub note_name: String,
    /// The closest scaled string target, informational only.
    pub target_millihz: u64,
    /// The cents deviation from the nearest semitone.
    pub cents_centicents: i64,
    /// The color zone after hysteresis.
    pub color: TuningColor,
    /// The quantized indicator position in [-50, 50].
    pub indicator_pos: i32,
    /// Whether the debounce gate lets this update reach the screen.
    pub apply: bool,
}

/// A cents deviation rounded to whole cents, halves away from zero.
pub open spec fn rounded_cents(cc: int) -> int {
    if cc >= 0 {
        (cc + 50) / 100
    } else {
        -((-cc + 50) / 100)
    }
}

/// The tray tooltip for a tuning: the product name, the note with its
/// frequency to a tenth of a hertz, and the signed whole-cent deviation
/// (an explicit plus for sharp, no sign for flat or zero, the minus
/// coming from the number itself).
pub open spec fn tooltip_text_spec(name: Seq<char>, freq_millihz: int, cc: int) -> Seq<char> {
    let deci_hz = (freq_millihz + 50) / 100;
    let cents = rounded_cents(cc);
    let sign: Seq<char> = if cents > 0 {
        seq!['+']
    } else {
        Seq::<char>::empty()
    };
    "Guitar Tuner\n"@ + name + " ("@ + decimal_digits(deci_hz / 10) + seq!['.'] + decimal_digits(
        deci_hz % 10,
    ) + "Hz)\n"@ + sign + decimal_of(cents) + "\u{a2}"@
}

/// Builds the tray tooltip for the last accepted tuning.
pub fn tooltip_text(note_name: &str, frequency_millihz: u64, cents_centicents: i64) -> (s: String)
    requires
        frequency_millihz + 50 <= u64::MAX,
        cents_centicents > i64::MIN,
    ensures
        s@ == tooltip_text_spec(
            note_name@,
            frequency_millihz as int,
            cents_centicents as int,
        ),
{
    let mut s = String::from_str("Guitar Tuner\n");
    s.append(note_name);
    s.append(" (");
    let deci_hz: u64 = (frequency_millihz + 50) / 100;
    let whole = u64_to_string(deci_hz / 10);
    s.append(whole.as_str());
    s.append(".");
    let tenth = u64_to_string(deci_hz % 10);
    s.append(tenth.as_str());
    s.append("Hz)\n");
    let cc: i64 = cents_centicents;
    let cents: i64 = if cc >= 0 {
        ((((cc as u64) + 50) / 100)) as i64
    } else {
        -(((((-(cc as i128)) as u128) + 50) / 100) as i64)
    };
    if cents > 0 {
        s.append("+");
    }
    let cents_digits = i64_to_string(cents);
    s.append(cents_digits.as_str());
    s.append("\u{a2}");
    proof {
        reveal_strlit(" (");
        reveal_strlit(".");
        reveal_strlit("+");
        assert(cents == rounded_cents(cents_centicents as int));
        assert(s@ =~= tooltip_text_spec(
            note_name@,
            frequency_millihz as int,
            cents_centicents as int,
        ));
    }
    s
}

/// The per-session analysis state: the smoothing history, the silence
/// tracker, what the tray last showed, and the last accepted tuning.
pub struct Analyzer {
    /// The bounded history of accepted fundamentals.
    pub history: FrequencyHistory,
    /// The silence-timeout tracker.
    pub silence: SilenceTracker,
    /// What the tray indicator last showed.
    pub tray: TrayIconState,
    /// The last accepted tuning, for on-demand redraw.
    pub last_info: TuningInfo,
}

impl Analyzer {
    /// A fresh session state.
    pub fn new() -> (a: Self)
        ensures
            a.history@ == Seq::<u64>::empty(),
            a.history.well_formed(),
            a.silence.last_valid_millis is None,
            a.silence.is_reset == true,
            a.tray.last_color is None,
            a.tray.last_indicator_pos is None,
            a.tray.last_update_millis is None,
            a.last_info.note_name@ == Seq::<char>::empty(),
    {
        Analyzer {
            history: FrequencyHistory::new(),
            silence: SilenceTracker::new(),
            tray: TrayIconState::new(),
            last_info: TuningInfo::empty(),
        }
    }

    /// The top of each cycle: checks the silence timeout. When it fires,
    /// the history is cleared, the tray state forgotten and the last
    /// tuning emptied; the result says whether to emit the reset signal.
    pub fn on_tick(&mut self, now_millis: u64) -> (fire: bool)
        requires
            old(self).history.well_formed(),
            old(self).silence.last_valid_millis matches Some(t) ==> t <= now_millis,
        ensures
            fire == silence_reset_due(old(self).silence, now_millis as int),
            final(self).silence.is_reset == (old(self).silence.is_reset || fire),
            final(self).silence.last_valid_millis == old(self).silence.last_valid_millis,
            fire ==> final(self).history@ == Seq::<u64>::empty()
                && final(self).tray.last_color is None
                && final(self).tray.last_indicator_pos is None
                && final(self).tray.last_update_millis is None
                && final(self).last_info.note_name@ == Seq::<char>::empty(),
            !fire ==> final(self).history == old(self).history && final(self).tray == old(self).tray && final(self).last_info == old(self).last_info,
            final(self).history.well_formed(),
    {
        let fire = self.silence.check_timeout(now_millis);
        if fire {
            self.history.clear();
            self.tray.reset();
            self.last_info = TuningInfo::empty();
        }
        fire
    }

    /// A resolved fundamental arrives: it enters the history only when it
    /// lies in guitar range, and once two estimates exist their median is
    /// the stable frequency, which marks the detection time and leaves the
    /// reset sub-state.
    pub fn on_fundamental(&mut self, fundamental_millihz: u64, now_millis: u64) -> (stable: Option<
        u64,
    >)
        requires
            old(self).history.well_formed(),
        ensures
            final(self).history.well_formed(),
            final(self).tray == old(self).tray,
            final(self).last_info == old(self).last_info,
            !is_guitar_frequency_spec(fundamental_millihz as int) ==> stable is None && final(self).history == old(self).history && final(self).silence == old(self).silence,
            is_guitar_frequency_spec(fundamental_millihz as int) ==> {
                let h = if old(self).history@.len() < 5 {
                    old(self).history@.push(fundamental_millihz)
                } else {
                    old(self).history@.push(fundamental_millihz).drop_first()
                };
                &&& final(self).history@ == h
                &&& h.len() >= 2 ==> stable == Some(median_of(h))
                    && final(self).silence.last_valid_millis == Some(now_millis) && final(self).silence.is_reset == false
                &&& h.len() < 2 ==> stable is None && final(self).silence == old(self).silence
            },
    {
        if !is_guitar_frequency(fundamental_millihz) {
            return None;
        }
        self.history.push(fundamental_millihz);
        let stable = self.history.median();
        if stable.is_some() {
            self.silence.note_detection(now_millis);
        }
        stable
    }

    /// A stable frequency arrives: maps it to a note, stores the tuning
    /// for on-demand redraw, classifies the cents into a color zone with
    /// hysteresis, quantizes the indicator, and applies the debounce gate,
    /// mutating the tray state only when the update is applied.
    /// `cents_from_a4_centicents` is the offset of the stable frequency
    /// from the effective A4, measured by the caller.
    pub fn on_stable_frequency(
        &mut self,
        stable_millihz: u64,
        cents_from_a4_centicents: i64,
        cfg: &TunerConfig,
        now_millis: u64,
    ) -> (up: TuningUpdate)
        requires
            config_well_formed(cfg),
            old(self).tray.last_update_millis matches Some(t) ==> t <= now_millis,
        ensures
            ({
                let n = nearest_semitone(cents_from_a4_centicents as int);
                let cents = cents_from_a4_centicents - n * 10_000;
                let color = next_color(cents, old(self).tray.last_color);
                let pos = indicator_position_spec(cents);
                &&& up.note_name@ == note_name_spec(69 + n)
                &&& up.target_millihz == closest_scaled_target(stable_millihz as int, cfg, 0)
                &&& up.cents_centicents == cents
                &&& up.color == color
                &&& up.indicator_pos == pos
                &&& up.apply == should_update_spec(old(self).tray, color, pos, now_millis as int)
                &&& final(self).last_info.note_name@ == up.note_name@
                &&& final(self).last_info.frequency_millihz == stable_millihz
                &&& final(self).last_info.cents_centicents == cents
                &&& up.apply ==> {
                    &&& final(self).tray.last_color == Some(color)
                    &&& final(self).tray.last_indicator_pos == Some(up.indicator_pos)
                    &&& final(self).tray.last_update_millis == Some(now_millis)
                }
                &&& !up.apply ==> final(self).tray == old(self).tray
                &&& final(self).history == old(self).history
                &&& final(self).silence == old(self).silence
            }),
    {
        let (note_name, target_millihz, cents_centicents) = calculate_note_info(
            stable_millihz,
            cents_from_a4_centicents,
            cfg,
        );
        self.last_info = TuningInfo {
            note_name: note_name.clone(),
            frequency_millihz: stable_millihz,
            cents_centicents,
        };
        let color = determine_color_with_hysteresis(cents_centicents, self.tray.last_color);
        let pos = indicator_position(cents_centicents);
        let apply = self.tray.should_update(color, pos, now_millis);
        if apply {
            self.tray.update(color, pos, now_millis);
        }
        TuningUpdate {
            note_name,
            target_millihz,
            cents_centicents,
            color,
            indicator_pos: pos,
            apply,
        }
    }

    /// The color for an immediate redraw that bypasses the debounce timer:
    /// the zone last shown, or a fresh classification when none is.
    pub fn refresh_color(&self, cents_centicents: i64) -> (c: TuningColor)
        requires
            cents_centicents > i64::MIN,
        ensures
            self.tray.last_color matches Some(shown) ==> c == shown,
            self.tray.last_color is None ==> c == next_color(cents_centicents as int, None),
    {
        match self.tray.last_color {
            Some(shown) => shown,
            None => determine_color_with_hysteresis(cents_centicents, None),
        }
    }
}

} // verus!
