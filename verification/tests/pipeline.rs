//! The spectral decision chain on concrete spectra: bin mapping, noise
//! floor, peak location, sub-bin refinement and fundamental resolution.

use guitar_tuner::frequency::calculate_frequency_bins;
use guitar_tuner::frequency::calculate_noise_floor;
use guitar_tuner::frequency::detect_guitar_fundamental;
use guitar_tuner::frequency::find_peak;
use guitar_tuner::frequency::gaussian_interpolation;
use guitar_tuner::frequency::is_guitar_frequency;
use guitar_tuner::history::FrequencyHistory;
use guitar_tuner::sorting::sort_ascending;

#[test]
fn test_is_guitar_frequency() {
    // Within 15% of E2 (82.41 Hz).
    assert!(is_guitar_frequency(82_000));
    assert!(is_guitar_frequency(85_000));

    // Out of range.
    assert!(!is_guitar_frequency(50_000));
    assert!(!is_guitar_frequency(500_000));
}

#[test]
fn test_calculate_noise_floor() {
    let spectrum: Vec<u64> = vec![1, 2, 3, 4, 5];
    assert_eq!(calculate_noise_floor(&spectrum), 3);
}

#[test]
fn noise_floor_takes_upper_middle_of_even_slice() {
    let spectrum: Vec<u64> = vec![4, 1, 3, 2];
    assert_eq!(calculate_noise_floor(&spectrum), 3);
}

#[test]
fn noise_floor_ignores_a_lone_peak() {
    let mut spectrum: Vec<u64> = vec![10; 100];
    spectrum[40] = 1_000_000;
    assert_eq!(calculate_noise_floor(&spectrum), 10);
}

#[test]
fn frequency_bins_for_a_common_rate() {
    let (min_bin, max_bin) = calculate_frequency_bins(48_000, 32_768);
    assert_eq!((min_bin, max_bin), (51, 239));
    assert!(min_bin < max_bin);
}

#[test]
fn frequency_bins_stay_ordered_for_pathological_rates() {
    for sr in [1usize, 2, 3, 7, 50, 149, 1_000] {
        let (min_bin, max_bin) = calculate_frequency_bins(sr, 32_768);
        assert!(min_bin < max_bin, "collapsed at sample rate {}", sr);
    }
    let (min_bin, max_bin) = calculate_frequency_bins(1, 4);
    assert!(min_bin < max_bin);
}

#[test]
fn find_peak_returns_last_of_equal_maxima() {
    assert_eq!(find_peak(&vec![]), None);
    assert_eq!(find_peak(&vec![7]), Some((0, 7)));
    assert_eq!(find_peak(&vec![1, 9, 3, 9, 2]), Some((3, 9)));
}

#[test]
fn sort_ascending_orders_and_keeps_elements() {
    let mut v: Vec<u64> = vec![5, 1, 4, 1, 3];
    sort_ascending(&mut v);
    assert_eq!(v, vec![1, 1, 3, 4, 5]);
}

#[test]
fn interpolation_keeps_bin_center_for_symmetric_neighbors() {
    // Equal neighbors put the parabola's apex on the bin center.
    let logs: Vec<i64> = vec![0, 1_000_000, 2_000_000, 1_000_000, 0];
    let freq = gaussian_interpolation(&logs, 2, 100, 48_000, 32_768);
    assert_eq!(freq, 149_414);
}

#[test]
fn interpolation_pulls_toward_the_stronger_neighbor() {
    let logs: Vec<i64> = vec![0, 2_000_000, 1_000_000];
    let freq = gaussian_interpolation(&logs, 1, 101, 48_000, 32_768);
    // delta = (y0 - y2) / (2 * (y0 - 2*y1 + y2)) = 1/6 of a bin above center.
    assert_eq!(freq, 149_658);
}

#[test]
fn interpolation_falls_back_to_bin_center_at_the_edge() {
    let logs: Vec<i64> = vec![2_000_000, 1_000_000, 0];
    let freq = gaussian_interpolation(&logs, 0, 102, 48_000, 32_768);
    assert_eq!(freq, 149_414);
}

#[test]
fn resolver_prefers_the_fundamental_over_a_strong_second_harmonic() {
    // A strong peak sits at twice 164.81 Hz and a weaker but qualifying
    // peak at 164.81 Hz itself; the resolver must pick the lower one.
    let (min_bin, max_bin) = calculate_frequency_bins(48_000, 32_768);
    let mut spectrum: Vec<u64> = vec![10; max_bin - min_bin];
    spectrum[225 - min_bin] = 1_000;
    spectrum[112 - min_bin] = 300;
    let noise_floor = calculate_noise_floor(&spectrum);
    assert_eq!(noise_floor, 10);
    let r = detect_guitar_fundamental(
        329_620,
        &spectrum,
        min_bin,
        max_bin,
        32_768,
        48_000,
        noise_floor,
        1_000,
    );
    assert_eq!(r, Some(164_810));
}

#[test]
fn resolver_keeps_the_peak_when_no_sub_harmonic_qualifies() {
    let (min_bin, max_bin) = calculate_frequency_bins(48_000, 32_768);
    let mut spectrum: Vec<u64> = vec![10; max_bin - min_bin];
    spectrum[130 - min_bin] = 1_000;
    // 190 Hz is within tolerance of G3 and no sub-harmonic shows energy.
    let r = detect_guitar_fundamental(
        190_000,
        &spectrum,
        min_bin,
        max_bin,
        32_768,
        48_000,
        10,
        1_000,
    );
    assert_eq!(r, Some(190_000));
}

#[test]
fn resolver_rejects_everything_off_target() {
    let (min_bin, max_bin) = calculate_frequency_bins(48_000, 32_768);
    let spectrum: Vec<u64> = vec![10; max_bin - min_bin];
    // 400 Hz lies above every tolerance band, and its quiet sub-harmonics
    // never qualify.
    let r = detect_guitar_fundamental(
        400_000,
        &spectrum,
        min_bin,
        max_bin,
        32_768,
        48_000,
        10,
        1_000,
    );
    assert_eq!(r, None);
}

#[test]
fn resolver_rejects_a_powerless_peak() {
    let (min_bin, max_bin) = calculate_frequency_bins(48_000, 32_768);
    let spectrum: Vec<u64> = vec![0; max_bin - min_bin];
    let r = detect_guitar_fundamental(
        82_410,
        &spectrum,
        min_bin,
        max_bin,
        32_768,
        48_000,
        0,
        0,
    );
    assert_eq!(r, None);
}

#[test]
fn history_reports_a_median_only_after_two_entries() {
    let mut h = FrequencyHistory::new();
    assert_eq!(h.median(), None);
    h.push(82_000);
    assert_eq!(h.median(), None);
    h.push(82_400);
    assert_eq!(h.median(), Some(82_400));
}

#[test]
fn history_evicts_the_oldest_beyond_five() {
    let mut h = FrequencyHistory::new();
    for f in [1u64, 2, 3, 4, 5, 6] {
        h.push(f * 1_000);
    }
    assert_eq!(h.len(), 5);
    assert_eq!(h.get(0), 2_000);
    assert_eq!(h.get(4), 6_000);
    // Median of {2000..6000} is 4000.
    assert_eq!(h.median(), Some(4_000));
}

#[test]
fn history_median_of_shuffled_values() {
    let mut h = FrequencyHistory::new();
    for f in [110_300u64, 109_800, 110_000, 110_200, 109_900] {
        h.push(f);
    }
    assert_eq!(h.median(), Some(110_000));
}
