//! The spectral decision chain: window-to-bin mapping, noise floor, peak
//! location, sub-bin refinement and fundamental resolution.
//!
//! Frequencies are integers in milli-hertz; spectral magnitudes are linearly
//! scaled non-negative integers; log-magnitudes for the sub-bin refinement
//! are integers in millionths of a natural-log unit.

use crate::sorting::median_of;
use crate::sorting::sort_ascending;
use vstd::prelude::*;

verus! {

/// Lower edge of the analysis window, in milli-hertz (75 Hz).
pub const MIN_FREQUENCY_MILLIHZ: u64 = 75_000;

/// Upper edge of the analysis window, in milli-hertz (350 Hz).
pub const MAX_FREQUENCY_MILLIHZ: u64 = 350_000;

/// The transform bin that a frequency in milli-hertz falls into, rounded
/// down: the truncating map that the fundamental resolver uses to look up
/// its sub-harmonics. The analysis window edges round to the nearest bin
/// instead; see [`nearest_bin_of`].
pub open spec fn bin_of(freq_millihz: int, padded_size: int, sample_rate: int) -> int {
    freq_millihz * padded_size / (1000 * sample_rate)
}

/// The transform bin nearest to a frequency in milli-hertz:
/// `round(freq * padded_size / sample_rate)` in hertz terms.
pub open spec fn nearest_bin_of(freq_millihz: int, padded_size: int, sample_rate: int) -> int {
    (freq_millihz * padded_size + 500 * sample_rate) / (1000 * sample_rate)
}

/// First bin of the analysis window before any degeneracy handling.
pub open spec fn raw_min_bin(sample_rate: int, padded_size: int) -> int {
    nearest_bin_of(MIN_FREQUENCY_MILLIHZ as int, padded_size, sample_rate)
}

/// One-past-last bin of the analysis window, capped at the Nyquist bin.
pub open spec fn raw_max_bin(sample_rate: int, padded_size: int) -> int {
    let m = nearest_bin_of(MAX_FREQUENCY_MILLIHZ as int, padded_size, sample_rate);
    if m < padded_size / 2 {
        m
    } else {
        padded_size / 2
    }
}

/// Converts the analysis window [75 Hz, 350 Hz] into a half-open range of
/// transform bins for the given sample rate and padded transform size,
/// each edge rounded to the nearest bin.
///
/// The upper bin is capped at the Nyquist bin. When the naive computation
/// collapses (a degenerate, very low sample rate), the lower bin is kept
/// and the range is widened to one bin instead of failing — the lower bin
/// moves only in the one case where `min_bin + 1` itself would not be
/// representable. The result always satisfies `min_bin < max_bin`.
pub fn calculate_frequency_bins(sample_rate: usize, padded_size: usize) -> (r: (usize, usize))
    requires
        1 <= sample_rate,
    ensures
        r.0 < r.1,
        raw_min_bin(sample_rate as int, padded_size as int)
            < raw_max_bin(sample_rate as int, padded_size as int) ==> {
            &&& r.0 == raw_min_bin(sample_rate as int, padded_size as int)
            &&& r.1 == raw_max_bin(sample_rate as int, padded_size as int)
        },
        raw_max_bin(sample_rate as int, padded_size as int)
            <= raw_min_bin(sample_rate as int, padded_size as int) ==> {
            &&& r.0 == if raw_min_bin(sample_rate as int, padded_size as int)
                    < usize::MAX as int {
                raw_min_bin(sample_rate as int, padded_size as int)
            } else {
                usize::MAX - 1
            }
            &&& r.1 == r.0 + 1
        },
{
    let sr: u128 = sample_rate as u128;
    let p: u128 = padded_size as u128;
    let min_w: u128 = (75_000u128 * p + 500 * sr) / (1000 * sr);
    let max_raw: u128 = (350_000u128 * p + 500 * sr) / (1000 * sr);
    let half: u128 = p / 2;
    let max_w: u128 = if max_raw < half {
        max_raw
    } else {
        half
    };
    if min_w < max_w {
        assert(min_w < max_w <= padded_size as u128);
        (min_w as usize, max_w as usize)
    } else {
        let min_kept: usize = if min_w < usize::MAX as u128 {
            min_w as usize
        } else {
            usize::MAX - 1
        };
        (min_kept, min_kept + 1)
    }
}

/// Computes the noise floor of a spectral slice as its median magnitude,
/// a baseline that the sparse, concentrated energy of a guitar string
/// cannot drag upward the way a mean could.
pub fn calculate_noise_floor(spectrum: &Vec<u64>) -> (r: u64)
    requires
        spectrum@.len() > 0,
    ensures
        r == median_of(spectrum@),
{
    let mut sorted_spectrum = spectrum.clone();
    proof {
        assert(sorted_spectrum@ =~= spectrum@);
    }
    sort_ascending(&mut sorted_spectrum);
    sorted_spectrum[sorted_spectrum.len() / 2]
}

/// Finds the dominant bin of a spectral slice: its index and magnitude.
/// Among bins of equal magnitude the last one wins.
pub fn find_peak(spectrum: &Vec<u64>) -> (r: Option<(usize, u64)>)
    ensures
        r is Some <==> spectrum@.len() > 0,
        r matches Some(p) ==> {
            &&& p.0 < spectrum@.len()
            &&& p.1 == spectrum@[p.0 as int]
            &&& forall|k: int| 0 <= k < spectrum@.len() ==> spectrum@[k] <= p.1
            &&& forall|k: int| p.0 < k < spectrum@.len() ==> spectrum@[k] < p.1
        },
{
    if spectrum.len() == 0 {
        return None;
    }
    let mut best_idx: usize = 0;
    let mut best_val: u64 = spectrum[0];
    let mut i: usize = 1;
    while i < spectrum.len()
        invariant
            1 <= i <= spectrum@.len(),
            best_idx < i,
            best_val == spectrum@[best_idx as int],
            forall|k: int| 0 <= k < i ==> spectrum@[k] <= best_val,
            forall|k: int| best_idx < k < i ==> spectrum@[k] < best_val,
        decreases spectrum@.len() - i,
    {
        if spectrum[i] >= best_val {
            best_idx = i;
            best_val = spectrum[i];
        }
        i = i + 1;
    }
    Some((best_idx, best_val))
}

/// Magnitude of an integer.
pub open spec fn abs_int(a: int) -> int {
    if a < 0 {
        -a
    } else {
        a
    }
}

/// Integer division rounding toward zero, the rounding that the refinement
/// quotient below uses.
pub open spec fn div_toward_zero(a: int, b: int) -> int
    recommends
        b != 0,
{
    if (a >= 0) == (b >= 0) {
        abs_int(a) / abs_int(b)
    } else {
        -(abs_int(a) / abs_int(b))
    }
}

/// The parabolic (Gaussian) refinement offset in millionths of a bin, from
/// the log-magnitudes of the bins to the left of, at, and to the right of
/// the peak: `delta = (y0 - y2) / (2 * (y0 - 2*y1 + y2))`, clamped to plus
/// or minus half a bin, and zero when the denominator degenerates.
pub open spec fn parabolic_delta_micro(y0: int, y1: int, y2: int) -> int {
    let denom = y0 - 2 * y1 + y2;
    if denom == 0 {
        0
    } else {
        let d = div_toward_zero(500_000 * (y0 - y2), denom);
        if d < -500_000 {
            -500_000
        } else if d > 500_000 {
            500_000
        } else {
            d
        }
    }
}

/// The center frequency of a transform bin, in milli-hertz.
pub open spec fn bin_center_freq_millihz(bin: int, sample_rate: int, padded_size: int) -> int {
    bin * sample_rate * 1000 / padded_size
}

/// The refined frequency of a peak bin offset by `delta_micro` millionths
/// of a bin, in milli-hertz.
pub open spec fn refined_freq_millihz(
    peak_bin: int,
    delta_micro: int,
    sample_rate: int,
    padded_size: int,
) -> int {
    (peak_bin * 1_000_000 + delta_micro) * sample_rate * 1000 / (padded_size * 1_000_000)
}

/// Refines the dominant peak to a sub-bin frequency estimate by parabolic
/// interpolation over log-magnitudes. `log_spectrum` holds the
/// log-magnitudes of the analysed slice, whose first entry is bin
/// `min_bin` of the padded transform; edge peaks fall back to the
/// unrefined bin-center frequency.
pub fn gaussian_interpolation(
    log_spectrum: &Vec<i64>,
    peak_idx: usize,
    min_bin: usize,
    sample_rate: usize,
    padded_size: usize,
) -> (freq: u64)
    requires
        peak_idx < log_spectrum@.len(),
        min_bin + log_spectrum@.len() <= padded_size,
        1 <= sample_rate <= u32::MAX,
    ensures
        0 < peak_idx && peak_idx + 1 < log_spectrum@.len() ==> freq == refined_freq_millihz(
            peak_idx + min_bin,
            parabolic_delta_micro(
                log_spectrum@[peak_idx - 1] as int,
                log_spectrum@[peak_idx as int] as int,
                log_spectrum@[peak_idx + 1] as int,
            ),
            sample_rate as int,
            padded_size as int,
        ),
        !(0 < peak_idx && peak_idx + 1 < log_spectrum@.len()) ==> freq == bin_center_freq_millihz(
            peak_idx + min_bin,
            sample_rate as int,
            padded_size as int,
        ),
{
    let peak_bin: usize = peak_idx + min_bin;
    if peak_idx > 0 && peak_idx + 1 < log_spectrum.len() {
        let y0: i128 = log_spectrum[peak_idx - 1] as i128;
        let y1: i128 = log_spectrum[peak_idx] as i128;
        let y2: i128 = log_spectrum[peak_idx + 1] as i128;
        let denom: i128 = y0 - 2 * y1 + y2;
        let delta: i128 = if denom == 0 {
            0
        } else {
            let num: i128 = 500_000 * (y0 - y2);
            let num_abs: i128 = if num < 0 {
                -num
            } else {
                num
            };
            let den_abs: i128 = if denom < 0 {
                -denom
            } else {
                denom
            };
            let quotient: i128 = num_abs / den_abs;
            let signed: i128 = if (num < 0) != (denom < 0) {
                -quotient
            } else {
                quotient
            };
            if signed < -500_000 {
                -500_000
            } else if signed > 500_000 {
                500_000
            } else {
                signed
            }
        };
        proof {
            assert(delta == parabolic_delta_micro(y0 as int, y1 as int, y2 as int));
        }
        let scaled: i128 = (peak_bin as i128) * 1_000_000 + delta;
        let divisor: u128 = (padded_size as u128) * 1_000_000;
        let scaled_wide: u128 = scaled as u128;
        proof {
            assert(scaled_wide <= 18_446_744_073_709_551_615u128 * 1_000_000 + 500_000);
            assert(scaled_wide * (sample_rate as u128) <= (18_446_744_073_709_551_615u128
                * 1_000_000 + 500_000) * 4_294_967_295) by (nonlinear_arith)
                requires
                    scaled_wide <= 18_446_744_073_709_551_615u128 * 1_000_000 + 500_000,
                    (sample_rate as u128) <= 4_294_967_295u128,
            ;
        }
        let numerator: u128 = scaled_wide * (sample_rate as u128) * 1000;
        let freq_wide: u128 = numerator / divisor;
        proof {
            lemma_scaled_quotient_bounded(
                scaled as int,
                peak_bin as int,
                sample_rate as int,
                padded_size as int,
            );
        }
        freq_wide as u64
    } else {
        proof {
            assert((peak_bin as u128) * (sample_rate as u128) <= 18_446_744_073_709_551_615u128
                * 4_294_967_295) by (nonlinear_arith)
                requires
                    (peak_bin as u128) <= 18_446_744_073_709_551_615u128,
                    (sample_rate as u128) <= 4_294_967_295u128,
            ;
        }
        let numerator: u128 = (peak_bin as u128) * (sample_rate as u128) * 1000;
        let freq_wide: u128 = numerator / (padded_size as u128);
        proof {
            lemma_center_quotient_bounded(peak_bin as int, sample_rate as int, padded_size as int);
        }
        freq_wide as u64
    }
}

/// The refined quotient stays below two thousand times the sample rate, so
/// it fits the result type.
proof fn lemma_scaled_quotient_bounded(scaled: int, peak_bin: int, sample_rate: int, padded_size: int)
    requires
        1 <= padded_size,
        1 <= sample_rate <= u32::MAX,
        1 <= peak_bin <= padded_size,
        peak_bin * 1_000_000 - 500_000 <= scaled <= peak_bin * 1_000_000 + 500_000,
    ensures
        0 <= scaled * sample_rate * 1000 / (padded_size * 1_000_000) <= 2000 * sample_rate,
{
    let divisor = padded_size * 1_000_000;
    let numerator = scaled * sample_rate * 1000;
    assert(scaled <= 2 * padded_size * 1_000_000) by (nonlinear_arith)
        requires
            1 <= padded_size,
            scaled <= peak_bin * 1_000_000 + 500_000,
            peak_bin <= padded_size,
    ;
    assert(numerator <= divisor * (2000 * sample_rate)) by (nonlinear_arith)
        requires
            scaled <= 2 * padded_size * 1_000_000,
            1 <= sample_rate,
            1 <= padded_size,
            numerator == scaled * sample_rate * 1000,
            divisor == padded_size * 1_000_000,
    ;
    assert(numerator >= 0) by (nonlinear_arith)
        requires
            scaled >= peak_bin * 1_000_000 - 500_000,
            peak_bin >= 1,
            sample_rate >= 1,
            numerator == scaled * sample_rate * 1000,
    ;
    assert(divisor > 0) by (nonlinear_arith)
        requires
            padded_size >= 1,
            divisor == padded_size * 1_000_000,
    ;
    vstd::arithmetic::div_mod::lemma_div_is_ordered(numerator, divisor * (2000 * sample_rate), divisor);
    vstd::arithmetic::div_mod::lemma_div_multiples_vanish(2000 * sample_rate, divisor);
    vstd::arithmetic::div_mod::lemma_div_is_ordered(0, numerator, divisor);
}

/// The unrefined quotient stays below a thousand times the sample rate.
proof fn lemma_center_quotient_bounded(peak_bin: int, sample_rate: int, padded_size: int)
    requires
        1 <= padded_size,
        1 <= sample_rate <= u32::MAX,
        0 <= peak_bin <= padded_size,
    ensures
        0 <= peak_bin * sample_rate * 1000 / padded_size <= 1000 * sample_rate,
{
    let numerator = peak_bin * sample_rate * 1000;
    assert(0 <= numerator <= padded_size * (1000 * sample_rate)) by (nonlinear_arith)
        requires
            0 <= peak_bin <= padded_size,
            1 <= sample_rate,
            numerator == peak_bin * sample_rate * 1000,
    ;
    vstd::arithmetic::div_mod::lemma_div_is_ordered(numerator, padded_size * (1000 * sample_rate), padded_size);
    vstd::arithmetic::div_mod::lemma_div_multiples_vanish(1000 * sample_rate, padded_size);
    vstd::arithmetic::div_mod::lemma_div_is_ordered(0, numerator, padded_size);
}

/// The six standard string targets E2, A2, D3, G3, B3, E4 in milli-hertz.
pub open spec fn guitar_target_millihz(i: int) -> u64 {
    if i == 0 {
        82_410
    } else if i == 1 {
        110_000
    } else if i == 2 {
        146_830
    } else if i == 3 {
        196_000
    } else if i == 4 {
        246_940
    } else {
        329_630
    }
}

/// One standard string target by index.
pub fn guitar_target(i: usize) -> (t: u64)
    requires
        i < 6,
    ensures
        t == guitar_target_millihz(i as int),
{
    if i == 0 {
        82_410
    } else if i == 1 {
        110_000
    } else if i == 2 {
        146_830
    } else if i == 3 {
        196_000
    } else if i == 4 {
        246_940
    } else {
        329_630
    }
}

/// Whether `freq` lies within the plus-or-minus fifteen-percent tolerance
/// band around `target`: `freq / target` strictly between `0.85` and `1.15`,
/// stated exactly over integers as `20 * freq > 17 * target` and
/// `20 * freq < 23 * target`.
pub open spec fn within_guitar_tolerance(freq: int, target: int) -> bool {
    &&& 20 * freq > 17 * target
    &&& 20 * freq < 23 * target
}

/// Whether a frequency lies within tolerance of one of the six standard
/// string targets.
pub open spec fn is_guitar_frequency_spec(freq: int) -> bool {
    exists|i: int|
        0 <= i < 6 && #[trigger] within_guitar_tolerance(freq, guitar_target_millihz(i) as int)
}

/// Decides whether a frequency in milli-hertz is within the tolerance band
/// of some standard guitar string.
pub fn is_guitar_frequency(freq_millihz: u64) -> (r: bool)
    ensures
        r == is_guitar_frequency_spec(freq_millihz as int),
{
    let f: u128 = freq_millihz as u128;
    let mut found = false;
    let mut i: usize = 0;
    while i < 6
        invariant
            i <= 6,
            f == freq_millihz as u128,
            found == exists|k: int|
                0 <= k < i && #[trigger] within_guitar_tolerance(
                    freq_millihz as int,
                    guitar_target_millihz(k) as int,
                ),
        decreases 6 - i,
    {
        let t: u128 = guitar_target(i) as u128;
        if 20 * f > 17 * t && 20 * f < 23 * t {
            proof {
                assert(within_guitar_tolerance(
                    freq_millihz as int,
                    guitar_target_millihz(i as int) as int,
                ));
            }
            found = true;
        }
        i = i + 1;
    }
    found
}

/// The bin that the sub-harmonic for `divisor` falls into.
pub open spec fn sub_bin(freq: int, divisor: int, padded_size: int, sample_rate: int) -> int {
    bin_of(freq / divisor, padded_size, sample_rate)
}

/// Whether the sub-harmonic candidate for `divisor` shows enough energy:
/// its bin lies inside the analysed slice and its magnitude strictly
/// exceeds one and a half times the noise floor (stated exactly as
/// `2 * magnitude > 3 * noise_floor`).
pub open spec fn sub_candidate_present(
    freq: int,
    divisor: int,
    spectrum: Seq<u64>,
    min_bin: int,
    max_bin: int,
    padded_size: int,
    sample_rate: int,
    noise_floor: int,
) -> bool {
    let b = sub_bin(freq, divisor, padded_size, sample_rate);
    &&& min_bin <= b < max_bin
    &&& b - min_bin < spectrum.len()
    &&& 2 * spectrum[b - min_bin] > 3 * noise_floor
}

/// Whether the candidate for `divisor` is accepted as the fundamental:
/// present in the spectrum (the detected peak itself, `divisor == 1`, is
/// always present with the peak's own power), within tolerance of one of
/// the six string targets, and stronger than a tenth of the peak's power
/// (stated exactly as `10 * power > max_val`).
pub open spec fn candidate_accepted(
    freq: int,
    divisor: int,
    spectrum: Seq<u64>,
    min_bin: int,
    max_bin: int,
    padded_size: int,
    sample_rate: int,
    noise_floor: int,
    max_val: int,
) -> bool {
    if divisor == 1 {
        is_guitar_frequency_spec(freq) && 10 * max_val > max_val
    } else {
        &&& sub_candidate_present(
            freq,
            divisor,
            spectrum,
            min_bin,
            max_bin,
            padded_size,
            sample_rate,
            noise_floor,
        )
        &&& is_guitar_frequency_spec(freq / divisor)
        &&& 10 * spectrum[sub_bin(freq, divisor, padded_size, sample_rate) - min_bin] > max_val
    }
}

/// The fundamental that the resolver reports: candidates are ranked by
/// ascending frequency — `freq/4 <= freq/3 <= freq/2 <= freq` — and the
/// lowest accepted one wins, reflecting that a guitar fundamental always
/// lies below its harmonics.
pub open spec fn detected_fundamental(
    freq: int,
    spectrum: Seq<u64>,
    min_bin: int,
    max_bin: int,
    padded_size: int,
    sample_rate: int,
    noise_floor: int,
    max_val: int,
) -> Option<u64> {
    if candidate_accepted(
        freq,
        4,
        spectrum,
        min_bin,
        max_bin,
        padded_size,
        sample_rate,
        noise_floor,
        max_val,
    ) {
        Some((freq / 4) as u64)
    } else if candidate_accepted(
        freq,
        3,
        spectrum,
        min_bin,
        max_bin,
        padded_size,
        sample_rate,
        noise_floor,
        max_val,
    ) {
        Some((freq / 3) as u64)
    } else if candidate_accepted(
        freq,
        2,
        spectrum,
        min_bin,
        max_bin,
        padded_size,
        sample_rate,
        noise_floor,
        max_val,
    ) {
        Some((freq / 2) as u64)
    } else if candidate_accepted(
        freq,
        1,
        spectrum,
        min_bin,
        max_bin,
        padded_size,
        sample_rate,
        noise_floor,
        max_val,
    ) {
        Some(freq as u64)
    } else {
        None
    }
}

/// Looks up the power of the sub-harmonic candidate `freq / divisor`, or
/// `None` when its bin lies outside the analysed slice or its magnitude
/// does not clear one and a half times the noise floor.
fn sub_candidate_power(
    freq_millihz: u64,
    divisor: u64,
    spectrum: &Vec<u64>,
    min_bin: usize,
    max_bin: usize,
    padded_size: usize,
    sample_rate: usize,
    noise_floor: u64,
) -> (r: Option<u64>)
    requires
        2 <= divisor,
        1 <= sample_rate,
    ensures
        r is Some <==> sub_candidate_present(
            freq_millihz as int,
            divisor as int,
            spectrum@,
            min_bin as int,
            max_bin as int,
            padded_size as int,
            sample_rate as int,
            noise_floor as int,
        ),
        r matches Some(p) ==> p == spectrum@[sub_bin(
            freq_millihz as int,
            divisor as int,
            padded_size as int,
            sample_rate as int,
        ) - min_bin],
{
    let sub_freq: u64 = freq_millihz / divisor;
    proof {
        vstd::arithmetic::div_mod::lemma_div_is_ordered_by_denominator(
            freq_millihz as int,
            2,
            divisor as int,
        );
        assert((sub_freq as u128) * (padded_size as u128) <= 9_223_372_036_854_775_807u128
            * 18_446_744_073_709_551_615) by (nonlinear_arith)
            requires
                (sub_freq as u128) <= 9_223_372_036_854_775_807u128,
                (padded_size as u128) <= 18_446_744_073_709_551_615u128,
        ;
    }
    let bin_wide: u128 = (sub_freq as u128) * (padded_size as u128) / (1000
        * (sample_rate as u128));
    if (min_bin as u128) <= bin_wide && bin_wide < (max_bin as u128) {
        let idx: usize = (bin_wide as usize) - min_bin;
        if idx < spectrum.len() {
            let val: u64 = spectrum[idx];
            if 2 * (val as u128) > 3 * (noise_floor as u128) {
                Some(val)
            } else {
                None
            }
        } else {
            None
        }
    } else {
        None
    }
}

/// Resolves octave and harmonic confusion: starting from the detected peak
/// frequency, the sub-harmonics at a half, a third and a quarter of it are
/// tested lowest-first against the six string targets, and the lowest
/// candidate that shows enough energy, lies within tolerance of a target
/// and carries more than a tenth of the peak's power is returned as the
/// fundamental.
pub fn detect_guitar_fundamental(
    freq_millihz: u64,
    spectrum: &Vec<u64>,
    min_bin: usize,
    max_bin: usize,
    padded_size: usize,
    sample_rate: usize,
    noise_floor: u64,
    max_val: u64,
) -> (r: Option<u64>)
    requires
        1 <= sample_rate,
    ensures
        r == detected_fundamental(
            freq_millihz as int,
            spectrum@,
            min_bin as int,
            max_bin as int,
            padded_size as int,
            sample_rate as int,
            noise_floor as int,
            max_val as int,
        ),
{
    let mut divisor: u64 = 4;
    while divisor >= 2
        invariant
            1 <= sample_rate,
            divisor <= 4,
            forall|d: int|
                divisor < d <= 4 ==> !candidate_accepted(
                    freq_millihz as int,
                    d,
                    spectrum@,
                    min_bin as int,
                    max_bin as int,
                    padded_size as int,
                    sample_rate as int,
                    noise_floor as int,
                    max_val as int,
                ),
        decreases divisor,
    {
        if let Some(power) = sub_candidate_power(
            freq_millihz,
            divisor,
            spectrum,
            min_bin,
            max_bin,
            padded_size,
            sample_rate,
            noise_floor,
        ) {
            let sub_freq: u64 = freq_millihz / divisor;
            if is_guitar_frequency(sub_freq) && 10 * (power as u128) > (max_val as u128) {
                return Some(sub_freq);
            }
        }
        divisor = divisor - 1;
    }
    if is_guitar_frequency(freq_millihz) && max_val > 0 {
        proof {
            assert(10 * (max_val as int) > max_val as int);
        }
        return Some(freq_millihz);
    }
    None
}

} // verus!
