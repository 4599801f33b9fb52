//! The rules of the pet's life, as mathematics.
//!
//! Each function here says what one event makes of a state: a feeding, a look
//! at the clock, a revival. They work on the views of the state types, where
//! counters never overflow, and they are total. The executable transitions in
//! [`crate::game`] are proved to compute exactly these functions.

use vstd::prelude::*;
use crate::state::GameStateView;
use crate::state::HistoryView;
use crate::state::StatsView;
use crate::state::Status;
use crate::state::level_for;
use crate::time::elapsed_hours;

verus! {

/// After more than this many hours without food the pet is sad.
pub const HUNGER_THRESHOLD_SAD: u32 = 24;

/// After more than this many hours without food the pet is sick.
pub const HUNGER_THRESHOLD_SICK: u32 = 48;

/// A feeding that comes this many hours or more after the last one breaks the
/// streak.
pub const STREAK_BREAK_HOURS: u32 = 48;

/// After more than this many hours without food, one week, the pet is dead.
pub const HUNGER_THRESHOLD_DEAD: u32 = 168;

/// A commit of fewer lines than this is a snack.
pub const SNACK_THRESHOLD: u32 = 20;

/// A commit of this many lines or more is too much, and bloats the pet.
pub const BLOAT_THRESHOLD: u32 = 300;

/// Experience for a snack.
pub const SNACK_XP: u32 = 10;

/// Experience for a meal.
pub const MEAL_XP: u32 = 50;

/// Experience for a banquet that bloats.
pub const BLOAT_XP: u32 = 20;

/// Hunger that a snack takes away.
pub const SNACK_RELIEF: u32 = 10;

/// The experience that a commit of `lines` changed lines is worth.
pub open spec fn reward(lines: nat) -> nat {
    if lines < SNACK_THRESHOLD {
        SNACK_XP as nat
    } else if lines < BLOAT_THRESHOLD {
        MEAL_XP as nat
    } else {
        BLOAT_XP as nat
    }
}

/// The hunger left after a commit of `lines` changed lines: a snack takes ten
/// away, as far as there is any; a meal takes all; a banquet takes none.
pub open spec fn hunger_after(hunger: nat, lines: nat) -> nat {
    if lines < SNACK_THRESHOLD {
        if hunger >= SNACK_RELIEF {
            (hunger - SNACK_RELIEF) as nat
        } else {
            0
        }
    } else if lines < BLOAT_THRESHOLD {
        0
    } else {
        hunger
    }
}

/// The mood after a commit of `lines` changed lines has been eaten: a banquet
/// bloats; any smaller feeding makes the pet happy, unless it was bloated,
/// which a smaller feeding does not cure. The dead do not eat, and stay dead.
pub open spec fn status_after(status: Status, lines: nat) -> Status {
    if status == Status::DEAD {
        Status::DEAD
    } else if lines >= BLOAT_THRESHOLD || status == Status::BLOATED {
        Status::BLOATED
    } else {
        Status::HAPPY
    }
}

/// The stats after a commit of `lines` changed lines has been eaten.
///
/// The level rises to the one that goes with the new experience; it never
/// falls, even where the stored level was above it.
pub open spec fn fed(stats: StatsView, lines: nat) -> StatsView {
    let xp = stats.xp + reward(lines);
    StatsView {
        xp,
        level: if level_for(xp) > stats.level { level_for(xp) } else { stats.level },
        health: stats.health,
        hunger: hunger_after(stats.hunger, lines),
        status: status_after(stats.status, lines),
    }
}

/// Whether a pet last fed at `last` has starved by `now`.
pub open spec fn starved(last: int, now: int) -> bool {
    elapsed_hours(last, now) > HUNGER_THRESHOLD_DEAD
}

/// The streak after a feeding that comes `hours` hours after the last one:
/// broken after 48 hours or more, else as it was.
pub open spec fn streak_after(streak_days: nat, hours: nat) -> nat {
    if hours >= STREAK_BREAK_HOURS {
        0
    } else {
        streak_days
    }
}

/// The state after a commit of `lines` changed lines arrives at `now`.
///
/// A dead pet stays dead, and a pet that has starved by `now` dies. Either way
/// its health is 0 and it stays as it was in everything else: the commit is
/// neither eaten nor counted. Any other pet eats, and the feeding is recorded.
pub open spec fn feed(state: GameStateView, lines: nat, now: int) -> GameStateView {
    if state.stats.status == Status::DEAD || starved(state.last_commit_date, now) {
        GameStateView {
            stats: StatsView { status: Status::DEAD, health: 0, ..state.stats },
            ..state
        }
    } else {
        GameStateView {
            last_commit_date: now,
            stats: fed(state.stats, lines),
            history: HistoryView {
                total_commits: state.history.total_commits + 1,
                streak_days: streak_after(
                    state.history.streak_days,
                    elapsed_hours(state.last_commit_date, now) as nat,
                ),
            },
            ..state
        }
    }
}

/// Whether the counters of [`feed`]'s result fit the 32 bits that the stored
/// state has for each.
pub open spec fn feed_fits(state: GameStateView, lines: nat, now: int) -> bool {
    let next = feed(state, lines, now);
    &&& next.stats.xp <= u32::MAX
    &&& next.history.total_commits <= u32::MAX
}

/// The state after each of `events` has been fed in turn, first to last. An
/// event is a number of changed lines and the instant at which the commit
/// arrives.
pub open spec fn feed_all(state: GameStateView, events: Seq<(nat, int)>) -> GameStateView
    decreases events.len(),
{
    if events.len() == 0 {
        state
    } else {
        feed(feed_all(state, events.drop_last()), events.last().0, events.last().1)
    }
}

/// The mood of a pet that was in mood `status` when last looked at and has
/// gone `hours` hours without food. The dead stay dead. For the living the
/// gravest threshold passed decides; under all of them the mood stays.
pub open spec fn decayed(status: Status, hours: nat) -> Status {
    if status == Status::DEAD || hours > HUNGER_THRESHOLD_DEAD {
        Status::DEAD
    } else if hours > HUNGER_THRESHOLD_SICK {
        Status::SICK
    } else if hours > HUNGER_THRESHOLD_SAD {
        Status::SAD
    } else {
        status
    }
}

/// The state after a look at the clock at `now`, with no feeding: only the
/// mood can change.
pub open spec fn check_health(state: GameStateView, now: int) -> GameStateView {
    GameStateView {
        stats: StatsView {
            status: decayed(
                state.stats.status,
                elapsed_hours(state.last_commit_date, now) as nat,
            ),
            ..state.stats
        },
        ..state
    }
}

/// The state after an attempt to revive the pet: a dead pet starts over with
/// the initial stats, a living one is left alone.
pub open spec fn revive(state: GameStateView) -> GameStateView {
    if state.stats.status == Status::DEAD {
        state.reset()
    } else {
        state
    }
}

} // verus!
