//! What the rules guarantee, proved once for every state, every commit and
//! every instant.
//!
//! The statements are about the functions of [`crate::rules`]. Since the
//! executable transitions compute exactly those, each holds of the running
//! code as well.

use vstd::prelude::*;
use crate::rules::check_health;
use crate::rules::decayed;
use crate::rules::feed;
use crate::rules::feed_all;
use crate::rules::revive;
use crate::rules::reward;
use crate::rules::starved;
use crate::rules::BLOAT_THRESHOLD;
use crate::rules::SNACK_THRESHOLD;
use crate::state::level_for;
use crate::state::GameStateView;
use crate::state::HistoryView;
use crate::state::StatsView;
use crate::state::Status;
use crate::time::elapsed_hours;
use crate::time::lemma_elapsed_hours_grow;
use crate::time::lemma_no_hours_before;

verus! {

/// Feeding a dead pet changes nothing but its health, which it sets to 0; and
/// feeding it again, with whatever commit at whatever instant, changes nothing
/// at all.
pub proof fn lemma_feed_dead_is_noop(
    state: GameStateView,
    lines: nat,
    now: int,
    again: nat,
    later: int,
)
    requires
        state.stats.status == Status::DEAD,
    ensures
        feed(state, lines, now) == (GameStateView {
            stats: StatsView { health: 0, ..state.stats },
            ..state
        }),
        feed(state, lines, now).stats.status == Status::DEAD,
        feed(feed(state, lines, now), again, later) == feed(state, lines, now),
{
}

/// Death is final until a revival: whatever commit reaches a dead pet, and
/// whenever it is looked at, it stays dead.
pub proof fn lemma_dead_stays_dead(state: GameStateView, lines: nat, now: int)
    requires
        state.stats.status == Status::DEAD,
    ensures
        feed(state, lines, now).stats.status == Status::DEAD,
        check_health(state, now).stats.status == Status::DEAD,
        check_health(state, now) == state,
{
}

/// Over any sequence of feedings a dead pet stays dead, and gains nothing.
pub proof fn lemma_feedings_leave_the_dead_alone(state: GameStateView, events: Seq<(nat, int)>)
    requires
        state.stats.status == Status::DEAD,
    ensures
        feed_all(state, events).stats.status == Status::DEAD,
        feed_all(state, events).stats.xp == state.stats.xp,
        feed_all(state, events).history == state.history,
        feed_all(state, events).last_commit_date == state.last_commit_date,
    decreases events.len(),
{
    if events.len() > 0 {
        lemma_feedings_leave_the_dead_alone(state, events.drop_last());
    }
}

/// A commit of 300 lines or more that reaches a living pet in time leaves it
/// bloated and earns exactly 20 points of experience.
pub proof fn lemma_banquet_bloats(state: GameStateView, lines: nat, now: int)
    requires
        lines >= BLOAT_THRESHOLD,
        state.stats.status != Status::DEAD,
        !starved(state.last_commit_date, now),
    ensures
        feed(state, lines, now).stats.status == Status::BLOATED,
        feed(state, lines, now).stats.xp == state.stats.xp + 20,
{
}

/// A commit of 20 to 299 lines that reaches a living pet in time leaves no
/// hunger and earns exactly 50 points of experience.
pub proof fn lemma_meal_fills(state: GameStateView, lines: nat, now: int)
    requires
        SNACK_THRESHOLD <= lines < BLOAT_THRESHOLD,
        state.stats.status != Status::DEAD,
        !starved(state.last_commit_date, now),
    ensures
        feed(state, lines, now).stats.hunger == 0,
        feed(state, lines, now).stats.xp == state.stats.xp + 50,
{
}

/// A commit of fewer than 20 lines that reaches a living pet in time earns
/// exactly 10 points of experience and takes 10 off the hunger, or all of it
/// where there is less.
pub proof fn lemma_snack_relieves(state: GameStateView, lines: nat, now: int)
    requires
        lines < SNACK_THRESHOLD,
        state.stats.status != Status::DEAD,
        !starved(state.last_commit_date, now),
    ensures
        feed(state, lines, now).stats.xp == state.stats.xp + 10,
        state.stats.hunger >= 10 ==> feed(state, lines, now).stats.hunger == state.stats.hunger
            - 10,
        state.stats.hunger < 10 ==> feed(state, lines, now).stats.hunger == 0,
{
}

/// Feeding keeps the stats well formed: where the level was the one that goes
/// with the experience before, it is so after, and a pet without health is
/// still a dead one.
pub proof fn lemma_feed_keeps_well_formed(state: GameStateView, lines: nat, now: int)
    requires
        state.stats.well_formed(),
    ensures
        feed(state, lines, now).stats.well_formed(),
        feed(state, lines, now).stats.level == level_for(feed(state, lines, now).stats.xp),
{
    let xp = state.stats.xp;
    let more = feed(state, lines, now).stats.xp;
    assert(xp <= more);
    assert(xp / 100 <= more / 100) by (nonlinear_arith)
        requires
            xp <= more,
    ;
}

/// Feeding never lowers the level, the experience or the number of feedings.
pub proof fn lemma_feed_never_lowers(state: GameStateView, lines: nat, now: int)
    ensures
        feed(state, lines, now).stats.level >= state.stats.level,
        feed(state, lines, now).stats.xp >= state.stats.xp,
        feed(state, lines, now).history.total_commits >= state.history.total_commits,
{
}

/// Over any sequence of feedings the level, the experience and the number of
/// feedings never fall: after each of the first `k` commits they are at most
/// what they are after all of them.
pub proof fn lemma_feedings_never_lower(state: GameStateView, events: Seq<(nat, int)>, k: int)
    requires
        0 <= k <= events.len(),
    ensures
        feed_all(state, events.take(k)).stats.level <= feed_all(state, events).stats.level,
        feed_all(state, events.take(k)).stats.xp <= feed_all(state, events).stats.xp,
        feed_all(state, events.take(k)).history.total_commits <= feed_all(
            state,
            events,
        ).history.total_commits,
    decreases events.len(),
{
    if k == events.len() {
        assert(events.take(k) =~= events);
    } else {
        let shorter = events.drop_last();
        assert(shorter.take(k) =~= events.take(k));
        lemma_feedings_never_lower(state, shorter, k);
        lemma_feed_never_lowers(feed_all(state, shorter), events.last().0, events.last().1);
    }
}

/// Over any sequence of feedings the stats stay well formed: the level stays
/// the one that goes with the experience, and none but the dead are without
/// health.
pub proof fn lemma_feedings_keep_well_formed(state: GameStateView, events: Seq<(nat, int)>)
    requires
        state.stats.well_formed(),
    ensures
        feed_all(state, events).stats.well_formed(),
        feed_all(state, events).stats.level == level_for(feed_all(state, events).stats.xp),
    decreases events.len(),
{
    if events.len() > 0 {
        let shorter = events.drop_last();
        lemma_feedings_keep_well_formed(state, shorter);
        lemma_feed_keeps_well_formed(feed_all(state, shorter), events.last().0, events.last().1);
    }
}

/// A feeding that reaches a living pet in time breaks the streak where 48
/// hours or more have passed since the last one, and else leaves it as it was.
pub proof fn lemma_streak_breaks_after_two_days(state: GameStateView, lines: nat, now: int)
    requires
        state.stats.status != Status::DEAD,
        !starved(state.last_commit_date, now),
    ensures
        elapsed_hours(state.last_commit_date, now) >= 48 ==> feed(
            state,
            lines,
            now,
        ).history.streak_days == 0,
        elapsed_hours(state.last_commit_date, now) < 48 ==> feed(
            state,
            lines,
            now,
        ).history.streak_days == state.history.streak_days,
        feed(state, lines, now).history.total_commits == state.history.total_commits + 1,
        feed(state, lines, now).last_commit_date == now,
{
}

/// A commit that reaches a pet after it has starved finds it dead, however
/// many lines it brings: health is 0, and nothing was eaten or counted.
pub proof fn lemma_starved_is_dead(state: GameStateView, lines: nat, now: int)
    requires
        elapsed_hours(state.last_commit_date, now) > 168,
    ensures
        feed(state, lines, now).stats.status == Status::DEAD,
        feed(state, lines, now).stats.health == 0,
        feed(state, lines, now).stats.xp == state.stats.xp,
        feed(state, lines, now).stats.level == state.stats.level,
        feed(state, lines, now).stats.hunger == state.stats.hunger,
        feed(state, lines, now).history == state.history,
        feed(state, lines, now).last_commit_date == state.last_commit_date,
{
}

/// A look at the clock changes nothing but the mood. The dead stay dead; of
/// the living the mood changes only as the hours without food say: dead after
/// more than 168, else sick after more than 48, else sad after more than 24,
/// else as it was.
pub proof fn lemma_check_health_touches_status_only(state: GameStateView, now: int)
    ensures
        check_health(state, now).stats.xp == state.stats.xp,
        check_health(state, now).stats.level == state.stats.level,
        check_health(state, now).stats.hunger == state.stats.hunger,
        check_health(state, now).stats.health == state.stats.health,
        check_health(state, now).history == state.history,
        check_health(state, now).name == state.name,
        check_health(state, now).birth_date == state.birth_date,
        check_health(state, now).last_commit_date == state.last_commit_date,
        check_health(state, now).stats.status == decayed(
            state.stats.status,
            elapsed_hours(state.last_commit_date, now) as nat,
        ),
        state.stats.status == Status::DEAD || elapsed_hours(state.last_commit_date, now) > 168
            ==> check_health(state, now).stats.status == Status::DEAD,
        state.stats.status != Status::DEAD && 48 < elapsed_hours(state.last_commit_date, now)
            <= 168 ==> check_health(state, now).stats.status == Status::SICK,
        state.stats.status != Status::DEAD && 24 < elapsed_hours(state.last_commit_date, now)
            <= 48 ==> check_health(state, now).stats.status == Status::SAD,
        elapsed_hours(state.last_commit_date, now) <= 24 ==> check_health(
            state,
            now,
        ).stats.status == state.stats.status,
{
}

/// A newly hatched pet is well formed, and a look at the clock, a revival or
/// a reset keeps a pet so.
pub proof fn lemma_well_formed_is_kept(state: GameStateView, name: Seq<char>, now: int)
    ensures
        GameStateView::hatched(name, now).stats.well_formed(),
        state.stats.well_formed() ==> check_health(state, now).stats.well_formed(),
        state.stats.well_formed() ==> revive(state).stats.well_formed(),
        state.reset().stats.well_formed(),
{
}

/// Once a pet has starved, feeding it and looking at it both find it dead, and
/// leave it starved.
pub proof fn lemma_starved_stays_dead(state: GameStateView, lines: nat, now: int)
    requires
        starved(state.last_commit_date, now),
    ensures
        feed(state, lines, now).stats.status == Status::DEAD,
        check_health(state, now).stats.status == Status::DEAD,
        starved(feed(state, lines, now).last_commit_date, now),
        starved(check_health(state, now).last_commit_date, now),
{
}

/// Starvation lasts: a pet that has starved by `now` has starved by every
/// later instant too.
pub proof fn lemma_starvation_lasts(last: int, now: int, later: int)
    requires
        now <= later,
        starved(last, now),
    ensures
        starved(last, later),
{
    lemma_elapsed_hours_grow(last, now, later);
}

/// A later look is never milder than an earlier one. Of two looks at the same
/// pet, where the first finds it dead, so does the second; and where the first
/// finds it newly sick, the second finds it sick or dead.
pub proof fn lemma_later_look_is_never_milder(state: GameStateView, first: int, second: int)
    requires
        first <= second,
    ensures
        check_health(state, first).stats.status == Status::DEAD ==> check_health(
            state,
            second,
        ).stats.status == Status::DEAD,
        state.stats.status != Status::SICK && check_health(state, first).stats.status
            == Status::SICK ==> check_health(state, second).stats.status == Status::SICK
            || check_health(state, second).stats.status == Status::DEAD,
{
    lemma_elapsed_hours_grow(state.last_commit_date, first, second);
}

/// A clock that stands behind the last feeding harms no pet: a look at such
/// an instant changes nothing, and a commit that arrives then is eaten by any
/// pet that lives, without a break in its streak.
pub proof fn lemma_clock_set_back_is_harmless(state: GameStateView, lines: nat, now: int)
    requires
        now <= state.last_commit_date,
    ensures
        check_health(state, now) == state,
        !starved(state.last_commit_date, now),
        state.stats.status != Status::DEAD ==> feed(state, lines, now).stats.xp
            == state.stats.xp + reward(lines),
        state.stats.status != Status::DEAD ==> feed(state, lines, now).history == (HistoryView {
            total_commits: state.history.total_commits + 1,
            streak_days: state.history.streak_days,
        }),
{
    lemma_no_hours_before(state.last_commit_date, now);
}

/// A revival gives a dead pet the initial stats and leaves its name, its dates
/// and its history alone; it leaves a living pet as it is.
pub proof fn lemma_revive_resets_the_dead(state: GameStateView)
    ensures
        state.stats.status == Status::DEAD ==> revive(state).stats == StatsView::initial(),
        state.stats.status != Status::DEAD ==> revive(state) == state,
        revive(state).name == state.name,
        revive(state).birth_date == state.birth_date,
        revive(state).last_commit_date == state.last_commit_date,
        revive(state).history == state.history,
        revive(state).stats.status != Status::DEAD,
{
}

} // verus!
