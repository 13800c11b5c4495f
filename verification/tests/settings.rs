use firmium::settings::{clamp_scrollbar_width, PlaybackToggles};

fn toggles(crossfade: bool, gapless: bool, mode: &str) -> PlaybackToggles {
    PlaybackToggles { crossfade_enabled: crossfade, gapless_enabled: gapless, bit_perfect_mode: mode.to_string() }
}

#[test]
fn crossfade_turns_gapless_off_and_relaxes_strict_mode() {
    let mut t = toggles(false, true, "strict");
    let c = t.set_crossfade_enabled(true);
    assert!(t.crossfade_enabled && !t.gapless_enabled);
    assert_eq!(t.bit_perfect_mode, "relaxed");
    assert!(c.gapless_turned_off && c.bit_perfect_relaxed && !c.crossfade_turned_off);
    let c = t.set_crossfade_enabled(false);
    assert!(!t.crossfade_enabled && !t.gapless_enabled);
    assert!(!c.gapless_turned_off && !c.bit_perfect_relaxed);
}

#[test]
fn gapless_turns_crossfade_off() {
    let mut t = toggles(true, false, "off");
    let c = t.set_gapless(true);
    assert!(t.gapless_enabled && !t.crossfade_enabled);
    assert!(c.crossfade_turned_off);
    assert_eq!(t.bit_perfect_mode, "off");
}

#[test]
fn scrollbar_width_is_clamped() {
    assert_eq!(clamp_scrollbar_width(0), 6);
    assert_eq!(clamp_scrollbar_width(10), 10);
    assert_eq!(clamp_scrollbar_width(99), 20);
}
