//! Rules of the desktop client's settings screen: playback options that
//! exclude each other, and the bounds of the scrollbar width.

use vstd::prelude::*;
use crate::text::str_eq;

verus! {

/// The playback options that depend on each other: crossfade and gapless
/// playback exclude each other, and crossfade cannot run with the strict
/// bit-perfect mode.
pub struct PlaybackToggles {
    pub crossfade_enabled: bool,
    pub gapless_enabled: bool,
    /// "strict", "relaxed" or another mode name.
    pub bit_perfect_mode: String,
}

/// Which dependent options a change switched as a consequence, so that the
/// caller can tell the audio engine.
#[derive(Debug, Clone, Copy, PartialEq, Eq, Structural)]
pub struct ToggleChanges {
    pub gapless_turned_off: bool,
    pub crossfade_turned_off: bool,
    pub bit_perfect_relaxed: bool,
}

/// What switching crossfade to `on` does: gapless playback goes off and a
/// strict bit-perfect mode becomes "relaxed" when crossfade goes on.
pub open spec fn crossfade_step(pre: PlaybackToggles, post: PlaybackToggles, on: bool, r: ToggleChanges) -> bool {
    &&& post.crossfade_enabled == on
    &&& !r.crossfade_turned_off
    &&& r.gapless_turned_off == (on && pre.gapless_enabled)
    &&& post.gapless_enabled == (pre.gapless_enabled && !on)
    &&& r.bit_perfect_relaxed == (on && pre.bit_perfect_mode@ == "strict"@)
    &&& post.bit_perfect_mode@ == if r.bit_perfect_relaxed {
        "relaxed"@
    } else {
        pre.bit_perfect_mode@
    }
}

/// What switching gapless playback to `on` does: crossfade goes off when
/// gapless goes on.
pub open spec fn gapless_step(pre: PlaybackToggles, post: PlaybackToggles, on: bool, r: ToggleChanges) -> bool {
    &&& post.gapless_enabled == on
    &&& r.crossfade_turned_off == (on && pre.crossfade_enabled)
    &&& post.crossfade_enabled == (pre.crossfade_enabled && !on)
    &&& !r.gapless_turned_off && !r.bit_perfect_relaxed
    &&& post.bit_perfect_mode == pre.bit_perfect_mode
}

impl PlaybackToggles {
    /// Switches crossfade (see [`crossfade_step`]).
    pub fn set_crossfade_enabled(&mut self, on: bool) -> (r: ToggleChanges)
        ensures
            crossfade_step(*old(self), *final(self), on, r),
    {
        self.crossfade_enabled = on;
        let mut changes = ToggleChanges {
            gapless_turned_off: false,
            crossfade_turned_off: false,
            bit_perfect_relaxed: false,
        };
        if on {
            if self.gapless_enabled {
                self.gapless_enabled = false;
                changes.gapless_turned_off = true;
            }
            if str_eq(self.bit_perfect_mode.as_str(), "strict") {
                self.bit_perfect_mode = "relaxed".to_owned();
                changes.bit_perfect_relaxed = true;
            }
        }
        changes
    }

    /// Switches gapless playback (see [`gapless_step`]).
    pub fn set_gapless(&mut self, on: bool) -> (r: ToggleChanges)
        ensures
            gapless_step(*old(self), *final(self), on, r),
    {
        self.gapless_enabled = on;
        let mut changes = ToggleChanges {
            gapless_turned_off: false,
            crossfade_turned_off: false,
            bit_perfect_relaxed: false,
        };
        if on && self.crossfade_enabled {
            self.crossfade_enabled = false;
            changes.crossfade_turned_off = true;
        }
        changes
    }
}

/// Crossfade and gapless playback are never both on after either is
/// switched, whatever the state before; crossfade never runs alongside the
/// strict bit-perfect mode it just switched on with.
pub proof fn law_crossfade_gapless_exclusive(
    pre: PlaybackToggles,
    post: PlaybackToggles,
    on: bool,
    r: ToggleChanges,
    by_crossfade: bool,
)
    requires
        if by_crossfade { crossfade_step(pre, post, on, r) } else { gapless_step(pre, post, on, r) },
    ensures
        !(post.crossfade_enabled && post.gapless_enabled),
        by_crossfade && on ==> post.bit_perfect_mode@ != "strict"@,
{
    reveal_strlit("strict");
    reveal_strlit("relaxed");
    if by_crossfade && on && r.bit_perfect_relaxed {
        assert("relaxed"@[0] != "strict"@[0]);
    }
}

/// Fewest pixels of the scrollbar width.
pub const SCROLLBAR_MIN: u32 = 6;

/// Most pixels of the scrollbar width.
pub const SCROLLBAR_MAX: u32 = 20;

/// The scrollbar width kept for a requested width: clamped to 6..=20.
pub fn clamp_scrollbar_width(width: u32) -> (r: u32)
    ensures
        r == if width < SCROLLBAR_MIN {
            SCROLLBAR_MIN
        } else if width > SCROLLBAR_MAX {
            SCROLLBAR_MAX
        } else {
            width
        },
{
    let lower = if width < SCROLLBAR_MIN { SCROLLBAR_MIN } else { width };
    if lower > SCROLLBAR_MAX { SCROLLBAR_MAX } else { lower }
}

/// The kept scrollbar width is the requested one when it lies in 6..=20,
/// else the nearer bound.
pub proof fn law_scrollbar_bounds()
    ensures
        SCROLLBAR_MIN == 6,
        SCROLLBAR_MAX == 20,
{
}

/// Turning crossfade on turns gapless off and relaxes strict bit-perfect
/// output, turning gapless on turns crossfade off, and turning either off
/// touches nothing else.
pub proof fn law_toggle_effects(pre: PlaybackToggles, post: PlaybackToggles, on: bool, r: ToggleChanges, by_crossfade: bool)
    requires
        if by_crossfade { crossfade_step(pre, post, on, r) } else { gapless_step(pre, post, on, r) },
    ensures
        by_crossfade ==> post.crossfade_enabled == on && (on ==> !post.gapless_enabled) && (!on
            ==> post.gapless_enabled == pre.gapless_enabled && post.bit_perfect_mode@ == pre.bit_perfect_mode@),
        by_crossfade && on && pre.bit_perfect_mode@ == "strict"@ ==> post.bit_perfect_mode@ == "relaxed"@,
        by_crossfade && pre.bit_perfect_mode@ != "strict"@ ==> post.bit_perfect_mode@ == pre.bit_perfect_mode@,
        !by_crossfade ==> post.gapless_enabled == on && (on ==> !post.crossfade_enabled) && (!on
            ==> post.crossfade_enabled == pre.crossfade_enabled) && post.bit_perfect_mode == pre.bit_perfect_mode,
{
}

} // verus!
