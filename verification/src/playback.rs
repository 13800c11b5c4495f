//! Playback bookkeeping of the desktop client: the repeat button's cycle,
//! which audio player the transport follows, and when the side panels
//! (lyrics, similar tracks, cover colours) fetch for the current track.

use vstd::prelude::*;
use crate::text::str_eq;

verus! {

/// The repeat flags after the repeat button is pressed: off goes to
/// repeat-all, repeat-all to repeat-one, repeat-one back to off.
pub open spec fn next_repeat(one: bool, all: bool) -> (bool, bool) {
    if !one && !all {
        (false, true)
    } else if all {
        (true, false)
    } else {
        (false, false)
    }
}

/// The repeat flags `(repeat_one, repeat_all)` after a press of the repeat
/// button with the flags `one` and `all`.
pub fn cycle_repeat(one: bool, all: bool) -> (r: (bool, bool))
    ensures
        r == next_repeat(one, all),
{
    if !one && !all {
        (false, true)
    } else if all {
        (true, false)
    } else {
        (false, false)
    }
}

/// Three presses of the repeat button bring any of its three settings
/// back, and never set both flags.
pub proof fn law_repeat_cycles(one: bool, all: bool)
    requires
        !(one && all),
    ensures
        next_repeat(next_repeat(next_repeat(one, all).0, next_repeat(one, all).1).0,
            next_repeat(next_repeat(one, all).0, next_repeat(one, all).1).1) == (one, all),
        !(next_repeat(one, all).0 && next_repeat(one, all).1),
{
}

/// Which audio player the transport follows: the last one that started
/// loading or playing, or the one the queue reported.
#[derive(Debug, Clone)]
pub struct PlayerFocus {
    pub current: Option<String>,
}

/// Whether `current` names the player `player`.
pub open spec fn follows(current: Option<String>, player: Seq<char>) -> bool {
    current matches Some(c) && c@ == player
}

fn follows_player(current: &Option<String>, player: &String) -> (r: bool)
    ensures
        r == follows(*current, player@),
{
    match current {
        Some(c) => str_eq(c.as_str(), player.as_str()),
        None => false,
    }
}

impl PlayerFocus {
    /// No player followed yet.
    pub fn new() -> (r: PlayerFocus)
        ensures
            r.current is None,
    {
        PlayerFocus { current: None }
    }

    /// A player changed its playback state; `starting` tells whether the new
    /// state is loading or playing, which makes that player the followed
    /// one. Returns whether the state is the followed player's, and so is
    /// shown.
    pub fn state_changed(&mut self, player: &String, starting: bool) -> (shown: bool)
        ensures
            final(self).current == (if starting { Some(*player) } else { old(self).current }),
            shown == follows(final(self).current, player@),
    {
        if starting {
            self.current = Some(player.clone());
        }
        follows_player(&self.current, player)
    }

    /// Whether a position report of `player` is shown: only the followed
    /// player's are.
    pub fn position_shown(&self, player: &String) -> (shown: bool)
        ensures
            shown == follows(self.current, player@),
    {
        follows_player(&self.current, player)
    }

    /// The queue reported which player it drives (or none).
    pub fn queue_changed(&mut self, player: Option<String>)
        ensures
            final(self).current == player,
    {
        self.current = player;
    }
}

/// Once a player starts, its position reports are shown and those of every
/// other player are ignored, until another player starts or the queue names
/// another one.
pub proof fn law_started_player_is_followed(player: String, other: String)
    requires
        other@ != player@,
    ensures
        follows(Some(player), player@),
        !follows(Some(player), other@),
{
}

/// What a side panel does for the track now playing.
#[derive(Debug, Clone, Copy, PartialEq, Eq, Structural)]
pub enum TrackFetch {
    /// Nothing: the panel is closed or already holds this track.
    Skip,
    /// Nothing plays: the panel's content is cleared.
    Clear,
    /// A new track plays: its content is fetched.
    Fetch,
}

/// The panel's tracked track and the decision when the panel is `open`,
/// `current` plays, and the panel last fetched for `last`.
pub open spec fn track_fetch_step(open: bool, current: Option<String>, last: Option<String>) -> (Option<String>, TrackFetch) {
    if !open {
        (last, TrackFetch::Skip)
    } else {
        match current {
            None => (None, TrackFetch::Clear),
            Some(id) => if follows(last, id@) {
                (last, TrackFetch::Skip)
            } else {
                (Some(id), TrackFetch::Fetch)
            },
        }
    }
}

/// Decides whether a side panel fetches for the current track, and records
/// the track it fetched for in `last`.
pub fn track_fetch(open: bool, current: Option<&String>, last: &mut Option<String>) -> (r: TrackFetch)
    ensures
        (*final(last), r) == track_fetch_step(
            open,
            match current {
                Some(c) => Some(*c),
                None => None,
            },
            *old(last),
        ),
{
    if !open {
        return TrackFetch::Skip;
    }
    match current {
        None => {
            *last = None;
            TrackFetch::Clear
        },
        Some(id) => {
            if follows_player(last, id) {
                TrackFetch::Skip
            } else {
                *last = Some(id.clone());
                TrackFetch::Fetch
            }
        },
    }
}

/// Whether a panel takes a fetched result for `track_id`: only when it is
/// the track the panel last fetched for, so late answers for an earlier
/// track are dropped.
pub fn accepts_result(last: &Option<String>, track_id: &String) -> (r: bool)
    ensures
        r == follows(*last, track_id@),
{
    follows_player(last, track_id)
}

/// After a panel fetches for a track, the answer for that track is taken
/// and an answer for any other track is dropped.
pub proof fn law_only_latest_answer_taken(open: bool, current: String, last: Option<String>, other: String)
    requires
        other@ != current@,
    ensures
        follows(track_fetch_step(open, Some(current), last).0, current@) || !open,
        open ==> !follows(track_fetch_step(open, Some(current), last).0, other@),
{
}

/// The repeat button goes from off to repeat-all, from repeat-all to
/// repeat-one, and from repeat-one back to off.
pub proof fn law_repeat_order()
    ensures
        next_repeat(false, false) == (false, true),
        next_repeat(false, true) == (true, false),
        next_repeat(true, false) == (false, false),
{
}

} // verus!
