//! The pet's persistent state: who it is, when it was last fed, how it is
//! doing, and what it has been through.
//!
//! Every type here is plain data with public fields. Each has a view in which
//! the counters are natural numbers, so that the rules can be stated without a
//! thought for machine limits.

use vstd::prelude::*;
use crate::time::Timestamp;

verus! {

/// The pet's mood. Exactly one holds at a time.
#[derive(Clone, Copy, Debug, PartialEq, Eq, Structural)]
pub enum Status {
    HAPPY,
    SAD,
    HUNGRY,
    SICK,
    DEAD,
    BLOATED,
}

/// The pet's vital numbers.
#[derive(Clone, Copy, Debug, PartialEq, Eq, Structural)]
pub struct Stats {
    /// Experience earned by feeding.
    pub xp: u32,
    /// One more than the hundreds in `xp`, stored beside it.
    pub level: u32,
    /// From 0 to 100.
    pub health: u32,
    /// 0 when fully fed.
    pub hunger: u32,
    pub status: Status,
}

/// What the pet has been through.
#[derive(Clone, Copy, Debug, PartialEq, Eq, Structural)]
pub struct History {
    /// Feedings so far.
    pub total_commits: u32,
    /// Length of the current feeding streak.
    pub streak_days: u32,
}

/// One pet: the whole of what is kept between two runs.
#[derive(Clone, Debug)]
pub struct GameState {
    pub name: String,
    pub birth_date: Timestamp,
    /// When the pet was last fed.
    pub last_commit_date: Timestamp,
    pub stats: Stats,
    pub history: History,
}

/// [`Stats`] with unbounded counters.
pub struct StatsView {
    pub xp: nat,
    pub level: nat,
    pub health: nat,
    pub hunger: nat,
    pub status: Status,
}

/// [`History`] with unbounded counters.
pub struct HistoryView {
    pub total_commits: nat,
    pub streak_days: nat,
}

/// [`GameState`] as mathematics: the name as a sequence of characters, the two
/// dates as nanoseconds since the Unix epoch.
pub struct GameStateView {
    pub name: Seq<char>,
    pub birth_date: int,
    pub last_commit_date: int,
    pub stats: StatsView,
    pub history: HistoryView,
}

impl View for Stats {
    type V = StatsView;

    open spec fn view(&self) -> StatsView {
        StatsView {
            xp: self.xp as nat,
            level: self.level as nat,
            health: self.health as nat,
            hunger: self.hunger as nat,
            status: self.status,
        }
    }
}

impl View for History {
    type V = HistoryView;

    open spec fn view(&self) -> HistoryView {
        HistoryView {
            total_commits: self.total_commits as nat,
            streak_days: self.streak_days as nat,
        }
    }
}

impl View for GameState {
    type V = GameStateView;

    open spec fn view(&self) -> GameStateView {
        GameStateView {
            name: self.name@,
            birth_date: self.birth_date@,
            last_commit_date: self.last_commit_date@,
            stats: self.stats@,
            history: self.history@,
        }
    }
}

/// Points of experience per level.
pub const XP_PER_LEVEL: u32 = 100;

/// The level that goes with `xp` points of experience: one per full hundred,
/// starting at 1.
pub open spec fn level_for(xp: nat) -> nat {
    xp / (XP_PER_LEVEL as nat) + 1
}

impl StatsView {
    /// The stats of a pet that has just hatched, or has just been revived.
    pub open spec fn initial() -> StatsView {
        StatsView { xp: 0, level: 1, health: 100, hunger: 0, status: Status::HAPPY }
    }

    /// What the transitions keep true of the stats: the level is the one that
    /// goes with the experience, health does not exceed 100, and a pet whose
    /// health has reached 0 is dead.
    pub open spec fn well_formed(self) -> bool {
        &&& self.level == level_for(self.xp)
        &&& self.health <= 100
        &&& self.health == 0 ==> self.status == Status::DEAD
    }
}

impl HistoryView {
    /// The history of a pet that has just hatched.
    pub open spec fn initial() -> HistoryView {
        HistoryView { total_commits: 0, streak_days: 0 }
    }
}

impl GameStateView {
    /// The pet called `name` that hatched at `now` and has not been fed since.
    pub open spec fn hatched(name: Seq<char>, now: int) -> GameStateView {
        GameStateView {
            name,
            birth_date: now,
            last_commit_date: now,
            stats: StatsView::initial(),
            history: HistoryView::initial(),
        }
    }

    /// The same pet with its stats set back to the initial ones.
    pub open spec fn reset(self) -> GameStateView {
        GameStateView { stats: StatsView::initial(), ..self }
    }
}

impl Stats {
    /// The stats of a pet that has just hatched: no experience, level 1, full
    /// health, no hunger, happy.
    pub fn initial() -> (stats: Stats)
        ensures
            stats@ == StatsView::initial(),
    {
        Stats { xp: 0, level: 1, health: 100, hunger: 0, status: Status::HAPPY }
    }

    /// What a proper meal does for the pet's mood, beyond the stats that
    /// feeding sets: nothing yet.
    pub fn happiness_boost(&mut self)
        ensures
            *final(self) == *old(self),
    {
    }
}

impl GameState {
    /// A pet called `name` that hatches at `now`: born and last fed at that
    /// instant, with the initial stats and an empty history.
    pub fn new(name: &str, now: Timestamp) -> (state: GameState)
        ensures
            state@ == GameStateView::hatched(name@, now@),
            state.birth_date == now,
            state.last_commit_date == now,
    {
        GameState {
            name: name.to_owned(),
            birth_date: now,
            last_commit_date: now,
            stats: Stats::initial(),
            history: History { total_commits: 0, streak_days: 0 },
        }
    }

    /// Sets the stats back to the initial ones. Name, dates and history stay.
    pub fn reset(&mut self)
        ensures
            final(self)@ == old(self)@.reset(),
            final(self).name == old(self).name,
            final(self).birth_date == old(self).birth_date,
            final(self).last_commit_date == old(self).last_commit_date,
            final(self).history == old(self).history,
    {
        self.stats = Stats::initial();
    }
}

} // verus!
