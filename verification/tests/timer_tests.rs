use mickey_companion::config::{Action, Rules, Span};
use mickey_companion::timer::{Clock, ManualClock, Scheduler, SystemClock};
use std::time::Duration;

fn rules(min_sneeze: u64, min_knead: u64) -> Rules {
    Rules {
        sneeze_every_minutes: Span::from_minutes(min_sneeze),
        knead_every_minutes: Span::from_minutes(min_knead),
        single_click: "kneading".to_string(),
        double_click: "sneezing".to_string(),
        ..Rules::default_rules()
    }
}

fn secs(s: u64) -> u128 {
    Duration::from_secs(s).as_nanos()
}

#[test]
fn new_scheduler_does_not_fire_immediately() {
    let clock = ManualClock::new(Duration::from_secs(1_000_000).as_nanos());
    let s = Scheduler::new(rules(30, 5), &clock);
    let mut s = s;
    assert!(s.tick(&clock).is_none());
}

#[test]
fn fires_sneeze_after_sneeze_interval() {
    let mut clock = ManualClock::new(Duration::from_secs(0).as_nanos());
    let mut s = Scheduler::new(rules(1, 1), &clock);
    clock.advance(secs(60));
    assert_eq!(s.tick(&clock), Some(vec![Action::Sneezing, Action::RubNose]));
    assert!(s.tick(&clock).is_none());
}

#[test]
fn fires_knead_after_knead_interval() {
    let mut clock = ManualClock::new(Duration::from_secs(0).as_nanos());
    let mut s = Scheduler::new(rules(30, 1), &clock);
    clock.advance(secs(60));
    assert_eq!(s.tick(&clock), Some(vec![Action::Kneading, Action::Contented]));
}

#[test]
fn sneeze_takes_priority_over_knead_when_both_due() {
    let mut clock = ManualClock::new(Duration::from_secs(0).as_nanos());
    let mut s = Scheduler::new(rules(1, 1), &clock);
    clock.advance(secs(120));
    assert_eq!(s.tick(&clock), Some(vec![Action::Sneezing, Action::RubNose]));
}

#[test]
fn paused_blocks_all_ticks() {
    let mut clock = ManualClock::new(Duration::from_secs(0).as_nanos());
    let mut s = Scheduler::new(rules(1, 1), &clock);
    s.set_paused(true);
    clock.advance(secs(3600));
    assert!(s.tick(&clock).is_none());
    s.set_paused(false);
    clock.advance(secs(3600));
    assert!(s.tick(&clock).is_some());
}

#[test]
fn manual_trigger_pushes_next_event_out() {
    let mut clock = ManualClock::new(Duration::from_secs(0).as_nanos());
    let mut s = Scheduler::new(rules(30, 5), &clock);
    clock.advance(secs(10));
    s.trigger(Action::Sneezing, &clock);
    clock.advance(secs(1));
    assert!(s.tick(&clock).is_none());
    clock.advance(secs(30 * 60));
    assert_eq!(s.tick(&clock), Some(vec![Action::Sneezing, Action::RubNose]));
}

#[test]
fn trigger_idle_is_a_noop() {
    let mut clock = ManualClock::new(Duration::from_secs(0).as_nanos());
    let mut s = Scheduler::new(rules(30, 5), &clock);
    clock.advance(secs(10));
    s.trigger(Action::Idle, &clock);
    clock.advance(secs(1));
    assert!(s.tick(&clock).is_none());
}

#[test]
fn reload_rules_resets_schedule() {
    let mut clock = ManualClock::new(Duration::from_secs(0).as_nanos());
    let mut s = Scheduler::new(rules(30, 5), &clock);
    clock.advance(secs(60));
    s.reload_rules(rules(30, 1), &clock);
    clock.advance(secs(60));
    assert_eq!(s.tick(&clock), Some(vec![Action::Kneading, Action::Contented]));
}

#[test]
fn minimum_interval_is_one_minute() {
    let mut clock = ManualClock::new(Duration::from_secs(0).as_nanos());
    let mut s = Scheduler::new(rules(0, 0), &clock);
    clock.advance(secs(60));
    assert!(s.tick(&clock).is_some());
}

#[test]
fn night_mode_suppresses_normal_actions_and_yawns() {
    let mut clock = ManualClock::new(Duration::ZERO.as_nanos());
    let mut r = rules(1, 1);
    r.night_yawn_minutes = Span::from_minutes(1);
    let mut s = Scheduler::new(r, &clock);
    s.set_local_hour(23);
    clock.advance(secs(60));
    assert_eq!(s.tick(&clock), Some(vec![Action::Yawning, Action::Contented]));
}

#[test]
fn work_break_stretches_during_day() {
    let mut clock = ManualClock::new(Duration::ZERO.as_nanos());
    let mut r = rules(30, 30);
    r.work_break_minutes = Span::from_minutes(1);
    let mut s = Scheduler::new(r, &clock);
    s.set_local_hour(12);
    clock.advance(secs(60));
    assert_eq!(s.tick(&clock), Some(vec![Action::Stretching]));
}

#[test]
fn one_second_short_of_the_interval_nothing_fires() {
    let mut s = Scheduler::new_at(rules(1, 1), 0);
    assert_eq!(s.tick_at(secs(59)), None);
    assert_eq!(s.tick_at(secs(60)), Some(vec![Action::Sneezing, Action::RubNose]));
}

#[test]
fn cooldown_holds_back_a_due_action() {
    let mut r = rules(1, 2);
    r.action_cooldown_seconds = Span::from_seconds(8);
    let mut s = Scheduler::new_at(r, 0);
    assert_eq!(s.tick_at(secs(60)), Some(vec![Action::Sneezing, Action::RubNose]));
    // Kneading is due at 120 s, but the sneeze at 60 s was pushed to 120 s too.
    assert_eq!(s.tick_at(secs(119)), None);
    assert_eq!(s.tick_at(secs(120)), Some(vec![Action::Sneezing, Action::RubNose]));
    // Kneading was due at 120 s too and was pushed back with the sneeze.
    assert_eq!(s.tick_at(secs(125)), None);
}

#[test]
fn cooldown_applies_only_right_after_an_action() {
    let mut r = rules(1, 30);
    r.action_cooldown_seconds = Span::from_seconds(100);
    r.work_break_minutes = Span::from_minutes(60);
    let mut s = Scheduler::new_at(r, 0);
    assert_eq!(s.tick_at(secs(60)), Some(vec![Action::Sneezing, Action::RubNose]));
    assert_eq!(s.tick_at(secs(120)), None);
    assert_eq!(s.tick_at(secs(160)), Some(vec![Action::Sneezing, Action::RubNose]));
}

#[test]
fn knead_due_alone_leaves_sneeze_timer() {
    let mut s = Scheduler::new_at(rules(10, 1), 0);
    assert_eq!(s.tick_at(secs(60)), Some(vec![Action::Kneading, Action::Contented]));
    assert_eq!(s.tick_at(secs(600)), Some(vec![Action::Sneezing, Action::RubNose]));
}

#[test]
fn stretch_needs_behaviors_enabled() {
    let mut r = rules(30, 30);
    r.work_break_minutes = Span::from_minutes(1);
    r.behavior_enabled = false;
    let mut s = Scheduler::new_at(r, 0);
    assert_eq!(s.tick_at(secs(60)), None);
}

#[test]
fn night_without_quiet_mode_keeps_day_actions() {
    let mut r = rules(1, 30);
    r.night_quiet_enabled = false;
    let mut s = Scheduler::new_at(r, 0);
    s.set_local_hour(23);
    assert_eq!(s.tick_at(secs(60)), Some(vec![Action::Sneezing, Action::RubNose]));
}

#[test]
fn night_yawn_not_due_gives_nothing_even_if_sneeze_is_due() {
    let mut r = rules(1, 1);
    r.night_yawn_minutes = Span::from_minutes(10);
    let mut s = Scheduler::new_at(r, 0);
    s.set_local_hour(2);
    assert_eq!(s.tick_at(secs(60)), None);
    assert_eq!(s.tick_at(secs(600)), Some(vec![Action::Yawning, Action::Contented]));
}

#[test]
fn night_that_starts_when_it_ends_is_empty() {
    let mut r = rules(1, 1);
    r.night_start_hour = 5;
    r.night_end_hour = 5;
    let mut s = Scheduler::new_at(r, 0);
    s.set_local_hour(5);
    assert_eq!(s.tick_at(secs(60)), Some(vec![Action::Sneezing, Action::RubNose]));
}

#[test]
fn night_within_one_day() {
    let mut r = rules(1, 1);
    r.night_start_hour = 1;
    r.night_end_hour = 5;
    r.night_yawn_minutes = Span::from_minutes(1);
    let mut s = Scheduler::new_at(r.clone(), 0);
    s.set_local_hour(5);
    assert_eq!(s.tick_at(secs(60)), Some(vec![Action::Sneezing, Action::RubNose]));
    let mut s = Scheduler::new_at(r, 0);
    s.set_local_hour(1);
    assert_eq!(s.tick_at(secs(60)), Some(vec![Action::Yawning, Action::Contented]));
}

#[test]
fn local_hour_is_clamped_to_the_day() {
    let mut r = rules(1, 1);
    r.night_start_hour = 23;
    r.night_end_hour = 24;
    r.night_yawn_minutes = Span::from_minutes(1);
    let mut s = Scheduler::new_at(r, 0);
    s.set_local_hour(200);
    // 200 counts as 23, which falls in the night from 23 to 24.
    assert_eq!(s.tick_at(secs(60)), Some(vec![Action::Yawning, Action::Contented]));
}

#[test]
fn trigger_kneading_pushes_only_kneading() {
    let mut s = Scheduler::new_at(rules(2, 1), 0);
    s.trigger_at(Action::Kneading, secs(30));
    assert_eq!(s.tick_at(secs(60)), None);
    assert_eq!(s.tick_at(secs(90)), Some(vec![Action::Kneading, Action::Contented]));
    s.trigger_at(Action::Stretching, secs(100));
    assert_eq!(s.tick_at(secs(120)), Some(vec![Action::Sneezing, Action::RubNose]));
}

#[test]
fn not_finite_intervals_count_as_one_minute_in_the_schedule() {
    let mut r = rules(30, 30);
    r.sneeze_every_minutes = Span::NotFinite;
    let mut s = Scheduler::new_at(r, 0);
    assert_eq!(s.tick_at(secs(59)), None);
    assert_eq!(s.tick_at(secs(60)), Some(vec![Action::Sneezing, Action::RubNose]));
}

#[test]
fn pause_flag_reads_back() {
    let mut s = Scheduler::new_at(rules(1, 1), 0);
    assert!(!s.paused());
    s.set_paused(true);
    assert!(s.paused());
}

#[test]
fn sequences_for_each_action() {
    assert_eq!(Scheduler::sequence_for(Action::Sneezing), vec![Action::Sneezing, Action::RubNose]);
    assert_eq!(Scheduler::sequence_for(Action::Kneading), vec![Action::Kneading, Action::Contented]);
    assert_eq!(Scheduler::sequence_for(Action::Idle), Vec::<Action>::new());
    assert_eq!(Scheduler::sequence_for(Action::HeadTilt), vec![Action::HeadTilt]);
}

#[test]
fn manual_clock_reads_what_it_was_set_to() {
    let mut clock = ManualClock::new(5);
    assert_eq!(clock.now(), 5);
    clock.advance(7);
    assert_eq!(clock.now(), 12);
}

#[test]
fn system_clock_does_not_run_backwards() {
    let clock = SystemClock::new();
    let a = clock.now();
    let mut spin: u64 = 0;
    while clock.now() == a && spin < 100_000_000 {
        spin += 1;
    }
    let b = clock.now();
    assert!(b > a);
}

#[test]
fn saturating_times_stay_at_the_end_of_the_line() {
    let mut s = Scheduler::new_at(rules(1, 1), u128::MAX - 10);
    assert_eq!(s.tick_at(u128::MAX - 10), None);
    assert_eq!(s.tick_at(u128::MAX), Some(vec![Action::Sneezing, Action::RubNose]));
}

#[test]
fn a_zero_minute_yawn_still_waits_a_minute() {
    let mut r = rules(30, 30);
    r.night_yawn_minutes = Span::from_minutes(0);
    let mut s = Scheduler::new_at(r, 0);
    s.set_local_hour(23);
    assert_eq!(s.tick_at(secs(60)), Some(vec![Action::Yawning, Action::Contented]));
    assert_eq!(s.tick_at(secs(68)), None);
    assert_eq!(s.tick_at(secs(119)), None);
    assert_eq!(s.tick_at(secs(120)), Some(vec![Action::Yawning, Action::Contented]));
}

#[test]
fn nothing_fires_in_the_first_minute() {
    let mut s = Scheduler::new_at(rules(0, 0), secs(5));
    s.set_local_hour(23);
    assert_eq!(s.tick_at(secs(30)), None);
    s.set_paused(true);
    s.set_paused(false);
    s.set_local_hour(12);
    assert_eq!(s.tick_at(secs(64)), None);
    assert!(s.tick_at(secs(65)).is_some());
}
