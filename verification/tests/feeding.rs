use chrono::Utc;
use git_gotchi::game::{check_health, has_room_at, reward_for, update_stats};
use git_gotchi::state::{GameState, History, Stats, Status};
use git_gotchi::time::{Timestamp, MIN_SECONDS};

const HOUR: i64 = 3_600;
const START: i64 = 1_700_000_000;

fn at(secs: i64) -> Timestamp {
    Timestamp::new(secs, 0).unwrap()
}

fn pet(stats: Stats, history: History) -> GameState {
    GameState {
        name: String::from("Rex"),
        birth_date: at(START - 1_000 * HOUR),
        last_commit_date: at(START),
        stats,
        history,
    }
}

fn stats(xp: u32, level: u32, health: u32, hunger: u32, status: Status) -> Stats {
    Stats { xp, level, health, hunger, status }
}

fn no_history() -> History {
    History { total_commits: 0, streak_days: 0 }
}

#[test]
fn fresh_pet_eats_a_snack_after_one_hour() {
    let mut state = GameState::new("Rex", at(START));
    update_stats(&mut state, 15, at(START + HOUR));
    assert_eq!(state.stats.xp, 10);
    assert_eq!(state.stats.level, 1);
    assert_eq!(state.stats.hunger, 0);
    assert_eq!(state.stats.status, Status::HAPPY);
    assert_eq!(state.stats.health, 100);
    assert_eq!(state.history.total_commits, 1);
    assert_eq!(state.history.streak_days, 0);
    assert_eq!(state.last_commit_date, at(START + HOUR));
    assert_eq!(state.birth_date, at(START));
    assert_eq!(state.name, "Rex");
}

#[test]
fn meal_at_ninety_xp_crosses_into_level_two() {
    let mut state = pet(stats(90, 1, 100, 30, Status::HAPPY), no_history());
    update_stats(&mut state, 50, at(START + HOUR));
    assert_eq!(state.stats.xp, 140);
    assert_eq!(state.stats.level, 2);
    assert_eq!(state.stats.hunger, 0);
}

#[test]
fn commit_after_two_hundred_hours_finds_the_pet_dead() {
    for lines in [0u32, 15, 50, 300, 5_000] {
        let history = History { total_commits: 7, streak_days: 3 };
        let mut state = pet(stats(120, 2, 80, 40, Status::HAPPY), history);
        update_stats(&mut state, lines, at(START + 200 * HOUR));
        assert_eq!(state.stats.status, Status::DEAD);
        assert_eq!(state.stats.health, 0);
        assert_eq!(state.stats.xp, 120);
        assert_eq!(state.stats.level, 2);
        assert_eq!(state.stats.hunger, 40);
        assert_eq!(state.history, history);
        assert_eq!(state.last_commit_date, at(START));
    }
}

#[test]
fn starved_dead_pet_is_left_alone_and_feeding_again_changes_nothing() {
    let history = History { total_commits: 4, streak_days: 2 };
    let mut state = pet(stats(250, 3, 60, 12, Status::DEAD), history);
    update_stats(&mut state, 40, at(START + 169 * HOUR));
    assert_eq!(state.stats, stats(250, 3, 0, 12, Status::DEAD));
    assert_eq!(state.history, history);
    assert_eq!(state.last_commit_date, at(START));
    assert_eq!(state.name, "Rex");

    let once = state.clone();
    update_stats(&mut state, 900, at(START + 2 * HOUR));
    assert_eq!(state.stats, once.stats);
    assert_eq!(state.history, once.history);
    assert_eq!(state.last_commit_date, once.last_commit_date);
    assert_eq!(state.birth_date, once.birth_date);
}

#[test]
fn dead_pet_does_not_eat_even_within_the_week() {
    for lines in [0u32, 15, 50, 300, 9_000] {
        for hours in [0i64, 1, 24, 47, 48, 168] {
            let history = History { total_commits: 3, streak_days: 2 };
            let mut state = pet(stats(70, 1, 60, 20, Status::DEAD), history);
            update_stats(&mut state, lines, at(START + hours * HOUR));
            assert_eq!(state.stats, stats(70, 1, 0, 20, Status::DEAD));
            assert_eq!(state.history, history);
            assert_eq!(state.last_commit_date, at(START));
        }
    }
}

#[test]
fn pet_found_dead_by_a_look_cannot_be_fed_back_to_life() {
    let mut state = GameState::new("Rex", at(START));
    check_health(&mut state, at(START + 200 * HOUR));
    assert_eq!(state.stats.status, Status::DEAD);
    update_stats(&mut state, 300, at(START + HOUR));
    assert_eq!(state.stats, stats(0, 1, 0, 0, Status::DEAD));
    assert_eq!(state.history, no_history());
    assert_eq!(state.last_commit_date, at(START));
    check_health(&mut state, at(START + 30 * HOUR));
    assert_eq!(state.stats.status, Status::DEAD);
}

#[test]
fn banquet_bloats_and_earns_twenty() {
    for lines in [300u32, 301, 10_000, u32::MAX] {
        let mut state = pet(stats(5, 1, 100, 33, Status::HAPPY), no_history());
        update_stats(&mut state, lines, at(START + 2 * HOUR));
        assert_eq!(state.stats, stats(25, 1, 100, 33, Status::BLOATED));
    }
}

#[test]
fn meal_clears_hunger_and_earns_fifty() {
    for lines in [20u32, 21, 150, 299] {
        let mut state = pet(stats(5, 1, 100, 33, Status::SAD), no_history());
        update_stats(&mut state, lines, at(START + 2 * HOUR));
        assert_eq!(state.stats, stats(55, 1, 100, 0, Status::HAPPY));
    }
}

#[test]
fn snack_takes_ten_off_hunger_and_earns_ten() {
    for lines in [0u32, 1, 19] {
        let mut state = pet(stats(5, 1, 100, 33, Status::SICK), no_history());
        update_stats(&mut state, lines, at(START + 2 * HOUR));
        assert_eq!(state.stats, stats(15, 1, 100, 23, Status::HAPPY));
    }
}

#[test]
fn snack_cannot_take_hunger_below_zero() {
    for (before, after) in [(0u32, 0u32), (4, 0), (9, 0), (10, 0), (11, 1)] {
        let mut state = pet(stats(0, 1, 100, before, Status::HAPPY), no_history());
        update_stats(&mut state, 3, at(START));
        assert_eq!(state.stats.hunger, after);
    }
}

#[test]
fn level_follows_experience_over_a_run_of_feedings() {
    let mut state = GameState::new("Rex", at(START));
    let commits: [u32; 8] = [10, 40, 700, 25, 299, 0, 20, 19];
    let mut now = START;
    let mut last_level = state.stats.level;
    let mut expected_xp = 0;
    for lines in commits {
        now += 5 * HOUR;
        update_stats(&mut state, lines, at(now));
        expected_xp += if lines < 20 { 10 } else if lines < 300 { 50 } else { 20 };
        assert_eq!(state.stats.xp, expected_xp);
        assert_eq!(state.stats.level, state.stats.xp / 100 + 1);
        assert!(state.stats.level >= last_level);
        last_level = state.stats.level;
    }
    assert_eq!(state.stats.xp, 250);
    assert_eq!(state.stats.level, 3);
    assert_eq!(state.history.total_commits, 8);
}

#[test]
fn stored_level_above_the_earned_one_is_kept() {
    let mut state = pet(stats(0, 10, 100, 0, Status::HAPPY), no_history());
    update_stats(&mut state, 50, at(START + HOUR));
    assert_eq!(state.stats.xp, 50);
    assert_eq!(state.stats.level, 10);
}

#[test]
fn starvation_begins_after_exactly_one_week() {
    let mut state = pet(stats(0, 1, 100, 0, Status::HAPPY), no_history());
    update_stats(&mut state, 15, at(START + 168 * HOUR + HOUR - 1));
    assert_eq!(state.stats.status, Status::HAPPY);
    assert_eq!(state.stats.xp, 10);

    let mut state = pet(stats(0, 1, 100, 0, Status::HAPPY), no_history());
    update_stats(&mut state, 15, at(START + 169 * HOUR));
    assert_eq!(state.stats.status, Status::DEAD);
    assert_eq!(state.stats.health, 0);
    assert_eq!(state.stats.xp, 0);
}

#[test]
fn streak_breaks_after_forty_eight_hours() {
    let history = History { total_commits: 9, streak_days: 6 };
    for (hours, streak) in [(0i64, 6u32), (23, 6), (24, 6), (47, 6), (48, 0), (49, 0), (168, 0)] {
        let mut state = pet(stats(0, 1, 100, 0, Status::HAPPY), history);
        update_stats(&mut state, 15, at(START + hours * HOUR));
        assert_eq!(state.history.streak_days, streak);
        assert_eq!(state.history.total_commits, 10);
    }
}

#[test]
fn streak_holds_until_the_forty_eighth_hour_is_full() {
    let history = History { total_commits: 9, streak_days: 6 };
    let mut state = pet(stats(0, 1, 100, 0, Status::HAPPY), history);
    update_stats(&mut state, 15, Timestamp::new(START + 48 * HOUR - 1, 999_999_999).unwrap());
    assert_eq!(state.history.streak_days, 6);
}

#[test]
fn feeding_cures_all_but_the_bloated_and_the_dead() {
    let cases = [
        (Status::HAPPY, Status::HAPPY),
        (Status::SAD, Status::HAPPY),
        (Status::HUNGRY, Status::HAPPY),
        (Status::SICK, Status::HAPPY),
        (Status::BLOATED, Status::BLOATED),
        (Status::DEAD, Status::DEAD),
    ];
    for (before, after) in cases {
        for lines in [5u32, 100] {
            let mut state = pet(stats(0, 1, 100, 0, before), no_history());
            update_stats(&mut state, lines, at(START + HOUR));
            assert_eq!(state.stats.status, after);
        }
    }
}

#[test]
fn commit_by_a_clock_set_back_is_eaten() {
    for behind in [1i64, HOUR - 1, HOUR, 2 * HOUR, 500 * HOUR] {
        let history = History { total_commits: 2, streak_days: 4 };
        let mut state = pet(stats(0, 1, 100, 0, Status::HAPPY), history);
        update_stats(&mut state, 15, at(START - behind));
        assert_eq!(state.stats, stats(10, 1, 100, 0, Status::HAPPY));
        assert_eq!(state.history, History { total_commits: 3, streak_days: 4 });
        assert_eq!(state.last_commit_date, at(START - behind));
    }
}

#[test]
fn commit_after_more_hours_than_fit_the_count_finds_the_pet_dead() {
    let long: i64 = 4_294_967_301 * HOUR;
    for status in [Status::HAPPY, Status::DEAD] {
        let history = History { total_commits: 2, streak_days: 4 };
        let mut state = pet(stats(30, 1, 100, 7, status), history);
        state.last_commit_date = at(MIN_SECONDS);
        update_stats(&mut state, 15, at(MIN_SECONDS + long));
        assert_eq!(state.stats, stats(30, 1, 0, 7, Status::DEAD));
        assert_eq!(state.history, history);
        assert_eq!(state.last_commit_date, at(MIN_SECONDS));
    }
}

#[test]
fn counters_may_be_filled_to_the_brim() {
    let history = History { total_commits: u32::MAX - 1, streak_days: u32::MAX };
    let mut state = pet(stats(u32::MAX - 50, 1, 100, u32::MAX, Status::HAPPY), history);
    update_stats(&mut state, 20, at(START));
    assert_eq!(state.stats.xp, u32::MAX);
    assert_eq!(state.stats.level, u32::MAX / 100 + 1);
    assert_eq!(state.history.total_commits, u32::MAX);
    assert_eq!(state.history.streak_days, u32::MAX);
}

#[test]
fn commit_at_the_present_hour_feeds_a_pet_hatched_just_now() {
    let read = Utc::now();
    let now = Timestamp::new(read.timestamp(), read.timestamp_subsec_nanos()).unwrap();
    let mut state = GameState::new("Rex", now);
    update_stats(&mut state, 42, now);
    assert_eq!(state.stats, stats(50, 1, 100, 0, Status::HAPPY));
    assert_eq!(state.history, History { total_commits: 1, streak_days: 0 });
    assert_eq!(state.birth_date, now);
    assert_eq!(state.last_commit_date, now);
    assert_eq!(state.name, "Rex");
}

#[test]
fn commit_at_the_present_hour_finds_a_pet_from_long_ago_dead() {
    let read = Utc::now();
    let now = Timestamp::new(read.timestamp(), read.timestamp_subsec_nanos()).unwrap();
    let mut state = GameState::new("Rex", at(START));
    update_stats(&mut state, 42, now);
    assert_eq!(state.stats, stats(0, 1, 0, 0, Status::DEAD));
    assert_eq!(state.history, no_history());
    assert_eq!(state.last_commit_date, at(START));
}

#[test]
fn happiness_boost_changes_nothing() {
    let mut s = stats(12, 3, 45, 6, Status::SAD);
    s.happiness_boost();
    assert_eq!(s, stats(12, 3, 45, 6, Status::SAD));
}

#[test]
fn reward_depends_on_the_size_of_the_commit() {
    let cases = [(0u32, 10u32), (19, 10), (20, 50), (299, 50), (300, 20), (u32::MAX, 20)];
    for (lines, xp) in cases {
        assert_eq!(reward_for(lines), xp);
    }
}

#[test]
fn room_is_needed_for_the_experience_and_for_one_more_commit() {
    let now = at(START + HOUR);
    let full = pet(stats(u32::MAX - 49, 1, 100, 0, Status::HAPPY), no_history());
    assert!(!has_room_at(&full, 20, now));
    assert!(has_room_at(&full, 19, now));
    assert!(has_room_at(&full, 300, now));

    let just = pet(stats(u32::MAX - 50, 1, 100, 0, Status::HAPPY), no_history());
    assert!(has_room_at(&just, 20, now));

    let counted_out = History { total_commits: u32::MAX, streak_days: 0 };
    let weary = pet(stats(0, 1, 100, 0, Status::HAPPY), counted_out);
    assert!(!has_room_at(&weary, 5, now));
}

#[test]
fn starved_pet_always_has_room() {
    let counted_out = History { total_commits: u32::MAX, streak_days: 0 };
    let full = pet(stats(u32::MAX, 1, 100, 0, Status::HAPPY), counted_out);
    assert!(!has_room_at(&full, 5, at(START + HOUR)));
    assert!(!has_room_at(&full, 5, at(START + 168 * HOUR)));
    assert!(has_room_at(&full, 5, at(START + 169 * HOUR)));

    let mut state = full.clone();
    update_stats(&mut state, 5, at(START + 169 * HOUR));
    assert_eq!(state.stats, stats(u32::MAX, 1, 0, 0, Status::DEAD));
    assert_eq!(state.history, counted_out);

    let mut dead = full.clone();
    dead.stats.status = Status::DEAD;
    assert!(has_room_at(&dead, 5, at(START + HOUR)));
    update_stats(&mut dead, 5, at(START + HOUR));
    assert_eq!(dead.stats, stats(u32::MAX, 1, 0, 0, Status::DEAD));
    assert_eq!(dead.history, counted_out);

    let fresh = pet(stats(0, 1, 100, 0, Status::HAPPY), no_history());
    assert!(has_room_at(&fresh, 5, at(START + HOUR)));
    let brim = pet(stats(u32::MAX - 9, 1, 100, 0, Status::HAPPY), no_history());
    assert!(!has_room_at(&brim, 5, at(START)));
    assert!(has_room_at(&pet(stats(u32::MAX - 10, 1, 100, 0, Status::HAPPY), no_history()), 5, at(START)));
}
