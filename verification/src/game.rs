//! The pet's life in executable form: feeding, the passing of time, revival,
//! and what the pet looks like.
//!
//! No function here reads a clock: each takes the instant at which the event
//! happens, and computes exactly what [`crate::rules`] says of it.

use vstd::prelude::*;
use crate::art::ART_BLOATED;
use crate::art::ART_DEAD;
use crate::art::ART_EGG;
use crate::art::ART_MASTER;
use crate::art::ART_SAD;
use crate::art::ART_SICK;
use crate::art::ART_UNKNOWN;
use crate::art::ART_YOUNG;
use crate::art::portrait;
use crate::rules;
use crate::rules::BLOAT_THRESHOLD;
use crate::rules::BLOAT_XP;
use crate::rules::HUNGER_THRESHOLD_DEAD;
use crate::rules::HUNGER_THRESHOLD_SAD;
use crate::rules::HUNGER_THRESHOLD_SICK;
use crate::rules::MEAL_XP;
use crate::rules::SNACK_RELIEF;
use crate::rules::STREAK_BREAK_HOURS;
use crate::rules::SNACK_THRESHOLD;
use crate::rules::SNACK_XP;
use crate::state::GameState;
use crate::state::Stats;
use crate::state::Status;
use crate::state::XP_PER_LEVEL;
use crate::time::Timestamp;

verus! {

/// The experience that a commit of `lines_changed` changed lines is worth: 10
/// for a snack, 50 for a meal, 20 for a banquet.
pub fn reward_for(lines_changed: u32) -> (xp: u32)
    ensures
        xp == rules::reward(lines_changed as nat),
{
    if lines_changed < SNACK_THRESHOLD {
        SNACK_XP
    } else if lines_changed < BLOAT_THRESHOLD {
        MEAL_XP
    } else {
        BLOAT_XP
    }
}

/// Whether the pet's counters have room for what a commit of `lines_changed`
/// changed lines that arrives at `now` makes of them: for the experience it
/// is worth, and for one more commit. A pet that is dead, or has starved by
/// then, gains nothing and always has room.
///
/// Where this holds, [`update_stats`] may be called with the same arguments.
pub fn has_room_at(state: &GameState, lines_changed: u32, now: Timestamp) -> (room: bool)
    ensures
        room == rules::feed_fits(state@, lines_changed as nat, now@),
        room == (state.stats.status == Status::DEAD || rules::starved(
            state.last_commit_date@,
            now@,
        ) || (state.stats.xp + rules::reward(lines_changed as nat) <= u32::MAX
            && state.history.total_commits < u32::MAX)),
{
    let hours: u32 = state.last_commit_date.hours_elapsed_at(&now);
    let xp: u32 = reward_for(lines_changed);
    state.stats.status == Status::DEAD || hours > HUNGER_THRESHOLD_DEAD || (state.stats.xp
        <= u32::MAX - xp && state.history.total_commits < u32::MAX)
}

/// Feeds the pet a commit of `lines_changed` changed lines that arrives at
/// `now`.
///
/// A pet that is dead stays dead, and a pet that has starved by `now` dies:
/// either way the commit is neither eaten nor counted. Any other pet eats.
///
/// The counters must have room for the result ([`has_room_at`]).
pub fn update_stats(state: &mut GameState, lines_changed: u32, now: Timestamp)
    requires
        rules::feed_fits(old(state)@, lines_changed as nat, now@),
    ensures
        final(state)@ == rules::feed(old(state)@, lines_changed as nat, now@),
        final(state).name == old(state).name,
        final(state).birth_date == old(state).birth_date,
        final(state).last_commit_date == (if old(state).stats.status == Status::DEAD
            || rules::starved(old(state).last_commit_date@, now@) {
            old(state).last_commit_date
        } else {
            now
        }),
{
    let hours: u32 = state.last_commit_date.hours_elapsed_at(&now);

    if state.stats.status == Status::DEAD || hours > HUNGER_THRESHOLD_DEAD {
        state.stats.status = Status::DEAD;
        state.stats.health = 0;
        return;
    }

    if lines_changed < SNACK_THRESHOLD {
        state.stats.hunger = state.stats.hunger.saturating_sub(SNACK_RELIEF);
    } else if lines_changed < BLOAT_THRESHOLD {
        state.stats.hunger = 0;
        state.stats.happiness_boost();
    } else {
        state.stats.status = Status::BLOATED;
    }
    state.stats.xp += reward_for(lines_changed);

    let new_level: u32 = state.stats.xp / XP_PER_LEVEL + 1;
    if new_level > state.stats.level {
        state.stats.level = new_level;
    }

    state.last_commit_date = now;
    state.history.total_commits += 1;

    if hours >= STREAK_BREAK_HOURS {
        state.history.streak_days = 0;
    }

    if state.stats.status != Status::BLOATED {
        state.stats.status = Status::HAPPY;
    }
}

/// Looks at the pet at `now`, without feeding it: hours without food wear on
/// its mood, and on nothing else. A dead pet stays dead.
pub fn check_health(state: &mut GameState, now: Timestamp)
    ensures
        final(state)@ == rules::check_health(old(state)@, now@),
        final(state).name == old(state).name,
        final(state).birth_date == old(state).birth_date,
        final(state).last_commit_date == old(state).last_commit_date,
        final(state).stats.xp == old(state).stats.xp,
        final(state).stats.level == old(state).stats.level,
        final(state).stats.health == old(state).stats.health,
        final(state).stats.hunger == old(state).stats.hunger,
        final(state).history == old(state).history,
        old(state).stats.status == Status::DEAD ==> final(state).stats.status == Status::DEAD,
{
    let hours: u32 = state.last_commit_date.hours_elapsed_at(&now);

    if state.stats.status == Status::DEAD || hours > HUNGER_THRESHOLD_DEAD {
        state.stats.status = Status::DEAD;
    } else if hours > HUNGER_THRESHOLD_SICK {
        state.stats.status = Status::SICK;
    } else if hours > HUNGER_THRESHOLD_SAD {
        state.stats.status = Status::SAD;
    }
}

/// Revives a dead pet: its stats start over, its name, dates and history stay.
/// A living pet is left as it is. Returns whether the pet was dead.
pub fn revive(state: &mut GameState) -> (revived: bool)
    ensures
        revived == (old(state).stats.status == Status::DEAD),
        final(state)@ == rules::revive(old(state)@),
        final(state).name == old(state).name,
        final(state).birth_date == old(state).birth_date,
        final(state).last_commit_date == old(state).last_commit_date,
        final(state).history == old(state).history,
{
    if state.stats.status == Status::DEAD {
        state.reset();
        true
    } else {
        false
    }
}

/// The portrait that goes with the pet's mood and level.
pub fn get_ascii_art(stats: &Stats) -> (art: String)
    ensures
        art@ == portrait(stats.status, stats.level as nat),
{
    match stats.status {
        Status::DEAD => ART_DEAD.to_owned(),
        Status::SICK => ART_SICK.to_owned(),
        Status::SAD => ART_SAD.to_owned(),
        Status::BLOATED => ART_BLOATED.to_owned(),
        Status::HAPPY => {
            if stats.level == 1 {
                ART_EGG.to_owned()
            } else if stats.level < 5 {
                ART_YOUNG.to_owned()
            } else {
                ART_MASTER.to_owned()
            }
        },
        Status::HUNGRY => ART_UNKNOWN.to_owned(),
    }
}

} // verus!
