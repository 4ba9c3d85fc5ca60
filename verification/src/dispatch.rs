//! The phase-driven dispatch state machine.
//!
//! The loop around the event-stream client consumes one event at a time
//! and decides, from the season-phase code and day counter in each event,
//! whether to trigger a scoring-and-delivery cycle. The decision logic is
//! verified here; the loop that performs the cycle lives outside the
//! library and feeds each event through [`dispatch_step`].

use vstd::prelude::*;

use crate::models::Event;

verus! {

/// The season-phase code of the regular season.
pub const REGULAR_SEASON_PHASE: u64 = 2;

/// Whether a phase code names an elimination round, where betting opens
/// per game batch.
pub open spec fn spec_is_postseason_phase(phase: u64) -> bool {
    phase == 4 || phase == 10 || phase == 11 || phase == 13 || phase == 14
}

/// Whether a phase code names an elimination round.
pub fn is_postseason_phase(phase: u64) -> (r: bool)
    ensures
        r == spec_is_postseason_phase(phase),
{
    phase == 4 || phase == 10 || phase == 11 || phase == 13 || phase == 14
}

/// Where the dispatch loop stands between events.
#[derive(Debug, Clone, Copy, PartialEq, Eq, Structural)]
pub enum DispatchMode {
    /// Nothing pending: the next event is judged afresh by its phase.
    Idle,
    /// A postseason dispatch fired; consume events until the upcoming
    /// schedule empties (games have started) before judging afresh.
    AwaitingGamesStart,
    /// A regular-season dispatch fired on this day; consume events until
    /// the day changes.
    AwaitingNextDay { day: u64 },
}

/// What one event does to the dispatch state, and whether it triggers a
/// dispatch cycle.
///
/// While waiting for games to start, any event that still lists upcoming
/// games is consumed silently, whatever its phase; the first event with an
/// empty upcoming schedule clears the wait. While waiting for the next
/// day, events of the same day are consumed silently; an event with a new
/// day is judged afresh. A fresh event triggers once in a postseason phase
/// with upcoming games, and once per new day in the regular season.
pub open spec fn spec_dispatch_step(
    mode: DispatchMode,
    phase: u64,
    day: u64,
    tomorrow_nonempty: bool,
) -> (DispatchMode, bool) {
    match mode {
        DispatchMode::AwaitingGamesStart => if tomorrow_nonempty {
            (DispatchMode::AwaitingGamesStart, false)
        } else {
            (DispatchMode::Idle, false)
        },
        DispatchMode::AwaitingNextDay { day: d } => if day == d {
            (DispatchMode::AwaitingNextDay { day: d }, false)
        } else {
            spec_fresh_step(phase, day, tomorrow_nonempty)
        },
        DispatchMode::Idle => spec_fresh_step(phase, day, tomorrow_nonempty),
    }
}

/// How an event is judged when nothing is pending.
pub open spec fn spec_fresh_step(phase: u64, day: u64, tomorrow_nonempty: bool) -> (
    DispatchMode,
    bool,
) {
    if spec_is_postseason_phase(phase) {
        if tomorrow_nonempty {
            (DispatchMode::AwaitingGamesStart, true)
        } else {
            (DispatchMode::Idle, false)
        }
    } else if phase == REGULAR_SEASON_PHASE {
        (DispatchMode::AwaitingNextDay { day }, true)
    } else {
        (DispatchMode::Idle, false)
    }
}

/// Feed one event through the dispatch state machine: the returned flag
/// says whether to trigger a scoring-and-delivery cycle for it.
pub fn dispatch_step(mode: DispatchMode, event: &Event) -> (r: (DispatchMode, bool))
    ensures
        r == spec_dispatch_step(
            mode,
            event.value.games.sim.phase,
            event.value.games.sim.day,
            event.value.games.tomorrow_schedule@.len() > 0,
        ),
{
    let phase = event.value.games.sim.phase;
    let day = event.value.games.sim.day;
    let tomorrow_nonempty = !event.value.games.tomorrow_schedule.is_empty();
    match mode {
        DispatchMode::AwaitingGamesStart => if tomorrow_nonempty {
            (DispatchMode::AwaitingGamesStart, false)
        } else {
            (DispatchMode::Idle, false)
        },
        DispatchMode::AwaitingNextDay { day: d } => if day == d {
            (DispatchMode::AwaitingNextDay { day: d }, false)
        } else {
            fresh_step(phase, day, tomorrow_nonempty)
        },
        DispatchMode::Idle => fresh_step(phase, day, tomorrow_nonempty),
    }
}

/// Judge an event with nothing pending.
fn fresh_step(phase: u64, day: u64, tomorrow_nonempty: bool) -> (r: (DispatchMode, bool))
    ensures
        r == spec_fresh_step(phase, day, tomorrow_nonempty),
{
    if is_postseason_phase(phase) {
        if tomorrow_nonempty {
            (DispatchMode::AwaitingGamesStart, true)
        } else {
            (DispatchMode::Idle, false)
        }
    } else if phase == REGULAR_SEASON_PHASE {
        (DispatchMode::AwaitingNextDay { day }, true)
    } else {
        (DispatchMode::Idle, false)
    }
}

} // verus!
