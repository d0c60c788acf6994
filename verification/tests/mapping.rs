//! Note and cents mapping, reference pitch handling, configuration
//! coercion, and the text and icon helpers.

use guitar_tuner::analyzer::tooltip_text;
use guitar_tuner::analyzer::Analyzer;
use guitar_tuner::config::get_tray_menu_text;
use guitar_tuner::config::TunerConfig;
use guitar_tuner::icon::filter_note_chars;
use guitar_tuner::icon::generate_tuning_icon;
use guitar_tuner::icon::get_char_bitmap_large;
use guitar_tuner::note::calculate_note_info;
use guitar_tuner::note::get_effective_a4;
use guitar_tuner::note::get_string6_target_freq;
use guitar_tuner::text::i64_to_string;
use guitar_tuner::text::str_eq;
use guitar_tuner::text::u64_to_string;
use guitar_tuner::tray::TuningColor;

/// The offset of a frequency from a reference, in hundredths of a cent,
/// as the capture-side caller measures it.
fn cents_from_a4(freq_hz: f64, a4_hz: f64) -> i64 {
    (1_200.0 * (freq_hz / a4_hz).log2() * 100.0).round() as i64
}

#[test]
fn note_mapping_finds_a4_at_440() {
    let cfg = TunerConfig::new();
    let cc = cents_from_a4(440.0, 440.0);
    assert_eq!(cc, 0);
    let (name, target, cents) = calculate_note_info(440_000, cc, &cfg);
    assert_eq!(name.as_str(), "A4");
    assert_eq!(cents, 0);
    // The closest informational string target to 440 Hz is E4.
    assert_eq!(target, 329_630);
}

#[test]
fn note_mapping_signs_the_cents_deviation() {
    let cfg = TunerConfig::new();
    let sharp = cents_from_a4(445.0, 440.0);
    let (name, _, cents) = calculate_note_info(445_000, sharp, &cfg);
    assert_eq!(name.as_str(), "A4");
    assert!(cents > 0);
    assert!(cents < 5_000);

    let flat = cents_from_a4(435.0, 440.0);
    let (name, _, cents) = calculate_note_info(435_000, flat, &cfg);
    assert_eq!(name.as_str(), "A4");
    assert!(cents < 0);
    assert!(cents > -5_000);
}

#[test]
fn note_mapping_handles_low_strings_and_deep_octaves() {
    let cfg = TunerConfig::new();
    // E2 is 28 semitones below A4.
    let cc = cents_from_a4(82.41, 440.0);
    let (name, target, _) = calculate_note_info(82_410, cc, &cfg);
    assert_eq!(name.as_str(), "E2");
    assert_eq!(target, 82_410);

    // 90 semitones below A4 lands in a negative octave.
    let (name, _, cents) = calculate_note_info(1_000, -900_000, &cfg);
    assert_eq!(name.as_str(), "D#-2");
    assert_eq!(cents, 0);
}

#[test]
fn drop_tuning_replaces_only_the_lowest_string() {
    let mut cfg = TunerConfig::new();
    cfg.set_drop_tuning(true, 0);
    assert_eq!(get_string6_target_freq(&cfg), 73_420);
    cfg.set_drop_tuning(true, 3);
    assert_eq!(get_string6_target_freq(&cfg), 61_740);
    cfg.set_drop_tuning(false, 3);
    assert_eq!(get_string6_target_freq(&cfg), 82_410);

    // With drop D the target for a 74 Hz tone is the dropped string...
    cfg.set_drop_tuning(true, 0);
    let cc = cents_from_a4(74.0, 440.0);
    let (_, target, _) = calculate_note_info(74_000, cc, &cfg);
    assert_eq!(target, 73_420);
    // ...while the A2 target is untouched.
    let cc = cents_from_a4(110.0, 440.0);
    let (_, target, _) = calculate_note_info(110_000, cc, &cfg);
    assert_eq!(target, 110_000);
}

#[test]
fn effective_a4_follows_the_pitch_mode() {
    let mut cfg = TunerConfig::new();
    assert_eq!(get_effective_a4(&cfg), 440_000);

    cfg.set_pitch_mode(1);
    cfg.set_custom_pitch(441_000);
    assert_eq!(get_effective_a4(&cfg), 441_000);

    cfg.set_pitch_mode(2);
    cfg.set_tuning_shift(-12);
    assert_eq!(get_effective_a4(&cfg), 220_000);
    cfg.set_tuning_shift(-1);
    assert_eq!(get_effective_a4(&cfg), 415_304);
    cfg.set_tuning_shift(0);
    assert_eq!(get_effective_a4(&cfg), 440_000);

    // Unknown modes fall back to the standard reference.
    cfg.set_pitch_mode(9);
    assert_eq!(get_effective_a4(&cfg), 440_000);
}

#[test]
fn scaled_targets_follow_the_reference() {
    // A half-step shift scales every informational target with it.
    let mut cfg = TunerConfig::new();
    cfg.set_pitch_mode(2);
    cfg.set_tuning_shift(-12);
    let cc = cents_from_a4(55.0, 220.0);
    let (name, target, _) = calculate_note_info(55_000, cc, &cfg);
    // Half of 110 Hz: the scaled A2 target.
    assert_eq!(target, 55_000);
    assert_eq!(name.as_str(), "A2");
}

#[test]
fn configuration_coerces_out_of_range_values() {
    let mut cfg = TunerConfig::new();
    cfg.set_threshold(500);
    assert_eq!(cfg.threshold_ratio_milli, 1_100);
    cfg.set_threshold(20_000);
    assert_eq!(cfg.threshold_ratio_milli, 10_000);
    cfg.set_threshold(3_000);
    assert_eq!(cfg.threshold_ratio_milli, 3_000);

    cfg.set_custom_pitch(400_000);
    assert_eq!(cfg.custom_pitch_millihz, 438_000);
    cfg.set_custom_pitch(500_000);
    assert_eq!(cfg.custom_pitch_millihz, 445_000);
    cfg.set_custom_pitch(439_500);
    assert_eq!(cfg.custom_pitch_millihz, 439_500);

    cfg.set_channel_mode(7);
    assert_eq!(cfg.channel_mode, 2);
    cfg.set_tray_icon_mode(9);
    assert_eq!(cfg.tray_icon_mode, 2);
    cfg.set_tuning_shift(-100);
    assert_eq!(cfg.tuning_shift, -24);
}

#[test]
fn locale_is_validated_against_the_enumerated_set() {
    let mut cfg = TunerConfig::new();
    assert!(cfg.set_locale(String::from("ja")).is_ok());
    assert_eq!(cfg.locale.as_str(), "ja");

    let err = cfg.set_locale(String::from("fr")).unwrap_err();
    assert_eq!(err.as_str(), "Invalid locale. Must be one of: en, ja");
    // The stored locale is untouched by the failure.
    assert_eq!(cfg.locale.as_str(), "ja");
}

#[test]
fn tray_menu_text_is_localized() {
    assert_eq!(get_tray_menu_text("en"), ("Show Window", "Quit"));
    assert_eq!(get_tray_menu_text("de"), ("Show Window", "Quit"));
    let (show, quit) = get_tray_menu_text("ja");
    assert!(!show.is_empty());
    assert!(!quit.is_empty());
    assert_ne!(show, "Show Window");
    assert_ne!(quit, "Quit");
}

#[test]
fn string_helpers_render_decimals() {
    assert_eq!(u64_to_string(0).as_str(), "0");
    assert_eq!(u64_to_string(7).as_str(), "7");
    assert_eq!(u64_to_string(12_345).as_str(), "12345");
    assert_eq!(i64_to_string(-42).as_str(), "-42");
    assert_eq!(i64_to_string(4).as_str(), "4");
    assert!(str_eq("abc", "abc"));
    assert!(!str_eq("abc", "abd"));
    assert!(!str_eq("abc", "ab"));
}

#[test]
fn font_covers_note_letters_and_sharp() {
    for c in ['A', 'B', 'C', 'D', 'E', 'F', 'G', '#'] {
        assert!(get_char_bitmap_large(c).is_some());
    }
    assert!(get_char_bitmap_large('H').is_none());
    assert!(get_char_bitmap_large('4').is_none());

    let a = get_char_bitmap_large('A').unwrap();
    assert_eq!(a[0], [false, true, true, true, false]);
    assert_eq!(a[3], [true, true, true, true, true]);
}

#[test]
fn icon_notes_are_filtered_to_drawable_characters() {
    assert_eq!(filter_note_chars("A#4").as_str(), "A#");
    assert_eq!(filter_note_chars("D#-2").as_str(), "D#");
    assert_eq!(filter_note_chars("123").as_str(), "");
}

#[test]
fn icon_buffer_has_the_right_shape_and_palette() {
    let rgba = generate_tuning_icon(0, TuningColor::Green, "A4", 1);
    assert_eq!(rgba.len(), 32 * 32 * 4);
    // The green meter color appears somewhere.
    let mut found_green = false;
    let mut i = 0;
    while i + 3 < rgba.len() {
        if rgba[i] == 0 && rgba[i + 1] == 255 && rgba[i + 2] == 100 && rgba[i + 3] == 255 {
            found_green = true;
        }
        i += 4;
    }
    assert!(found_green);

    // Zero cents puts the two-pixel indicator dead center, columns 15
    // and 16, throughout the meter band below the note name.
    for y in 17..30usize {
        for x in [15usize, 16] {
            let idx = (y * 32 + x) * 4;
            assert_eq!(&rgba[idx..idx + 4], &[0, 255, 100, 255]);
        }
    }

    // Ten cents sharp pegs the indicator at the right edge of the meter.
    let sharp = generate_tuning_icon(1_000, TuningColor::Red, "A4", 0);
    for y in 2..30usize {
        let idx = (y * 32 + 28) * 4;
        assert_eq!(&sharp[idx..idx + 4], &[255, 60, 60, 255]);
    }

    // Indicator-only mode still renders a full buffer.
    let rgba = generate_tuning_icon(-2_000, TuningColor::Red, "E2", 0);
    assert_eq!(rgba.len(), 4_096);
}

#[test]
fn tooltip_shows_note_frequency_and_signed_cents() {
    assert_eq!(
        tooltip_text("A4", 440_000, 0).as_str(),
        "Guitar Tuner\nA4 (440.0Hz)\n0\u{a2}"
    );
    assert_eq!(
        tooltip_text("E2", 82_410, 250).as_str(),
        "Guitar Tuner\nE2 (82.4Hz)\n+3\u{a2}"
    );
    assert_eq!(
        tooltip_text("A4", 435_000, -1_958).as_str(),
        "Guitar Tuner\nA4 (435.0Hz)\n-20\u{a2}"
    );
}

#[test]
fn refresh_color_reuses_the_shown_zone() {
    let mut a = Analyzer::new();
    // Nothing shown yet: a fresh classification.
    assert_eq!(a.refresh_color(0), TuningColor::Green);
    let cfg = TunerConfig::new();
    let up = a.on_stable_frequency(440_000, 800, &cfg, 1_000);
    assert!(up.apply);
    assert_eq!(up.color, TuningColor::Yellow);
    // The shown zone wins over a fresh classification of small cents.
    assert_eq!(a.refresh_color(0), TuningColor::Yellow);
}
