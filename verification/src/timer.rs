use vstd::prelude::*;

use crate::config::{interval, length, Action, Rules, RulesView, Span, ONE_MINUTE_NANOS};

verus! {

/// A source of the current time, in nanoseconds since some fixed origin.
pub trait Clock: Send + Sync {
    fn now(&self) -> u128;
}

#[verifier::external_type_specification]
#[verifier::external_body]
pub struct ExInstant(std::time::Instant);

/// Calls `std::time::Instant::now`. Nothing is claimed of the instant it
/// returns.
#[verifier::external_body]
fn instant_now() -> (r: std::time::Instant) {
    std::time::Instant::now()
}

/// Calls `std::time::Instant::elapsed` on `start`. Nothing is claimed of the
/// length it returns, which depends on when the call is made.
#[verifier::external_body]
fn elapsed_since(start: &std::time::Instant) -> (r: std::time::Duration) {
    start.elapsed()
}

/// Calls `std::time::Duration::as_nanos`. Nothing is claimed of the value:
/// `Duration` is opaque here, so there is nothing to relate it to.
#[verifier::external_body]
fn whole_nanos(d: &std::time::Duration) -> (r: u128) {
    d.as_nanos()
}

/// The machine's monotonic clock, counted from the moment the value was made.
pub struct SystemClock {
    started_at: std::time::Instant,
}

impl SystemClock {
    /// A clock that reads zero now.
    pub fn new() -> (r: Self) {
        SystemClock { started_at: instant_now() }
    }
}

impl Clock for SystemClock {
    fn now(&self) -> (r: u128) {
        let elapsed = elapsed_since(&self.started_at);
        whole_nanos(&elapsed)
    }
}

/// A clock that moves only when told to.
pub struct ManualClock {
    now: u128,
}

impl View for ManualClock {
    type V = u128;

    closed spec fn view(&self) -> u128 {
        self.now
    }
}

impl ManualClock {
    /// A clock that reads `start`.
    pub fn new(start: u128) -> (r: Self)
        ensures
            r@ == start,
    {
        ManualClock { now: start }
    }

    /// Moves the clock on by `nanos`.
    pub fn advance(&mut self, nanos: u128)
        requires
            old(self)@ + nanos <= u128::MAX,
        ensures
            final(self)@ == old(self)@ + nanos,
    {
        self.now = self.now + nanos;
    }
}

impl Clock for ManualClock {
    fn now(&self) -> (r: u128)
        ensures
            r == self@,
    {
        self.now
    }
}

/// The moment `d` after `t`; a moment past the end of the time line is taken
/// as its last moment.
pub open spec fn later(t: u128, d: u128) -> u128 {
    if t + d > u128::MAX {
        u128::MAX
    } else {
        (t + d) as u128
    }
}

/// What a scheduler holds: its rules, when each automatic action is next due,
/// when it last acted on its own, the local hour, and whether it is paused.
pub struct SchedulerState {
    pub rules: RulesView,
    pub next_sneeze_at: u128,
    pub next_knead_at: u128,
    pub next_stretch_at: u128,
    pub next_yawn_at: u128,
    pub last_auto_at: Option<u128>,
    pub local_hour: u8,
    pub paused: bool,
}

/// The actions that play, in order, when `action` fires.
pub open spec fn sequence(action: Action) -> Seq<Action> {
    match action {
        Action::Sneezing => seq![Action::Sneezing, Action::RubNose],
        Action::Kneading => seq![Action::Kneading, Action::Contented],
        Action::Idle => seq![],
        other => seq![other],
    }
}

/// A scheduler made at `now`: each automatic action due one interval later,
/// at noon, not paused, and with no automatic action yet.
pub open spec fn started(rules: RulesView, now: u128) -> SchedulerState {
    SchedulerState {
        rules,
        next_sneeze_at: later(now, interval(rules.sneeze_every_minutes)),
        next_knead_at: later(now, interval(rules.knead_every_minutes)),
        next_stretch_at: later(now, interval(rules.work_break_minutes)),
        next_yawn_at: later(now, interval(rules.night_yawn_minutes)),
        last_auto_at: None,
        local_hour: 12,
        paused: false,
    }
}

/// Whether `hour` falls in the night that `rules` set. A night may run past
/// midnight; a night that starts when it ends is empty.
pub open spec fn night_at(rules: RulesView, hour: u8) -> bool {
    let start = rules.night_start_hour;
    let end = rules.night_end_hour;
    if start == end {
        false
    } else if start > end {
        hour >= start || hour < end
    } else {
        hour >= start && hour < end
    }
}

/// Whether, at `now`, the pet still rests after its last automatic action.
pub open spec fn resting(s: SchedulerState, now: u128) -> bool {
    match s.last_auto_at {
        Some(last) => (if now >= last { now - last } else { 0 }) < length(
            s.rules.action_cooldown_seconds,
        ),
        None => false,
    }
}

/// Whether night mode holds back the usual actions.
pub open spec fn night_mode(s: SchedulerState) -> bool {
    s.rules.behavior_enabled && s.rules.night_quiet_enabled && night_at(s.rules, s.local_hour)
}

/// One tick at `now`: the state after it, and the actions that fire, if any.
/// Nothing fires while paused or resting. At night only a yawn can fire.
/// Otherwise a due sneeze comes first (pushing back a due kneading too), then
/// a due kneading, then, with behaviours on, a due stretch.
pub open spec fn ticked(s: SchedulerState, now: u128) -> (SchedulerState, Option<Seq<Action>>) {
    let rules = s.rules;
    if s.paused || resting(s, now) {
        (s, None)
    } else if night_mode(s) {
        if now >= s.next_yawn_at {
            (
                SchedulerState {
                    next_yawn_at: later(now, interval(rules.night_yawn_minutes)),
                    last_auto_at: Some(now),
                    ..s
                },
                Some(seq![Action::Yawning, Action::Contented]),
            )
        } else {
            (s, None)
        }
    } else if now >= s.next_sneeze_at {
        (
            SchedulerState {
                next_sneeze_at: later(now, interval(rules.sneeze_every_minutes)),
                next_knead_at: if now >= s.next_knead_at {
                    later(now, interval(rules.knead_every_minutes))
                } else {
                    s.next_knead_at
                },
                last_auto_at: Some(now),
                ..s
            },
            Some(sequence(Action::Sneezing)),
        )
    } else if now >= s.next_knead_at {
        (
            SchedulerState {
                next_knead_at: later(now, interval(rules.knead_every_minutes)),
                last_auto_at: Some(now),
                ..s
            },
            Some(sequence(Action::Kneading)),
        )
    } else if rules.behavior_enabled && now >= s.next_stretch_at {
        (
            SchedulerState {
                next_stretch_at: later(now, interval(rules.work_break_minutes)),
                last_auto_at: Some(now),
                ..s
            },
            Some(seq![Action::Stretching]),
        )
    } else {
        (s, None)
    }
}

/// The state after `action` was asked for by hand at `now`: a sneeze or a
/// kneading puts its own next automatic turn one interval after `now`; any
/// other action changes nothing.
pub open spec fn triggered(s: SchedulerState, action: Action, now: u128) -> SchedulerState {
    match action {
        Action::Sneezing => SchedulerState {
            next_sneeze_at: later(now, interval(s.rules.sneeze_every_minutes)),
            ..s
        },
        Action::Kneading => SchedulerState {
            next_knead_at: later(now, interval(s.rules.knead_every_minutes)),
            ..s
        },
        _ => s,
    }
}

/// The state after new rules were taken at `now`: every automatic action is
/// due one new interval after `now`.
pub open spec fn reloaded(s: SchedulerState, rules: RulesView, now: u128) -> SchedulerState {
    SchedulerState {
        rules,
        next_sneeze_at: later(now, interval(rules.sneeze_every_minutes)),
        next_knead_at: later(now, interval(rules.knead_every_minutes)),
        next_stretch_at: later(now, interval(rules.work_break_minutes)),
        next_yawn_at: later(now, interval(rules.night_yawn_minutes)),
        ..s
    }
}

/// The actions in an optional list.
pub open spec fn actions_of(r: Option<Vec<Action>>) -> Option<Seq<Action>> {
    match r {
        Some(v) => Some(v@),
        None => None,
    }
}

/// Decides when the pet sneezes, kneads, stretches and yawns on its own.
pub struct Scheduler {
    rules: Rules,
    next_sneeze_at: u128,
    next_knead_at: u128,
    next_stretch_at: u128,
    next_yawn_at: u128,
    last_auto_at: Option<u128>,
    local_hour: u8,
    paused: bool,
}

impl View for Scheduler {
    type V = SchedulerState;

    closed spec fn view(&self) -> SchedulerState {
        SchedulerState {
            rules: self.rules@,
            next_sneeze_at: self.next_sneeze_at,
            next_knead_at: self.next_knead_at,
            next_stretch_at: self.next_stretch_at,
            next_yawn_at: self.next_yawn_at,
            last_auto_at: self.last_auto_at,
            local_hour: self.local_hour,
            paused: self.paused,
        }
    }
}

fn interval_of(span: Span) -> (r: u128)
    ensures
        r == interval(span),
{
    match span {
        Span::Finite(n) => if n < ONE_MINUTE_NANOS { ONE_MINUTE_NANOS } else { n },
        Span::NotFinite => ONE_MINUTE_NANOS,
    }
}

fn length_of(span: Span) -> (r: u128)
    ensures
        r == length(span),
{
    match span {
        Span::Finite(n) => n,
        Span::NotFinite => u128::MAX,
    }
}

fn later_than(t: u128, d: u128) -> (r: u128)
    ensures
        r == later(t, d),
{
    t.saturating_add(d)
}

impl Scheduler {
    #[verifier::type_invariant]
    spec fn hour_in_day(self) -> bool {
        self.local_hour <= 23
    }

    /// A scheduler with `rules`, started at `now` (see `started`).
    pub fn new_at(rules: Rules, now: u128) -> (r: Self)
        ensures
            r@ == started(rules@, now),
    {
        let sneeze = later_than(now, interval_of(rules.sneeze_every_minutes));
        let knead = later_than(now, interval_of(rules.knead_every_minutes));
        let stretch = later_than(now, interval_of(rules.work_break_minutes));
        let yawn = later_than(now, interval_of(rules.night_yawn_minutes));
        Scheduler {
            rules,
            next_sneeze_at: sneeze,
            next_knead_at: knead,
            next_stretch_at: stretch,
            next_yawn_at: yawn,
            last_auto_at: None,
            local_hour: 12,
            paused: false,
        }
    }

    /// A scheduler with `rules`, started at the time `clock` reads.
    pub fn new(rules: Rules, clock: &dyn Clock) -> (r: Self)
        ensures
            exists|t: u128| #[trigger] started(rules@, t) == r@,
    {
        let now = clock.now();
        Self::new_at(rules, now)
    }

    /// One tick at `now` (see `ticked`): the actions to play, if any.
    pub fn tick_at(&mut self, now: u128) -> (r: Option<Vec<Action>>)
        ensures
            final(self)@ == ticked(old(self)@, now).0,
            actions_of(r) == ticked(old(self)@, now).1,
    {
        proof {
            use_type_invariant(&*self);
        }
        if self.paused {
            return None;
        }
        let cooldown = length_of(self.rules.action_cooldown_seconds);
        match self.last_auto_at {
            Some(last) => {
                if now.saturating_sub(last) < cooldown {
                    return None;
                }
            },
            None => {},
        }
        let is_night = self.is_night();
        if self.rules.behavior_enabled && self.rules.night_quiet_enabled && is_night {
            if now >= self.next_yawn_at {
                self.next_yawn_at = later_than(now, interval_of(self.rules.night_yawn_minutes));
                self.last_auto_at = Some(now);
                let mut v: Vec<Action> = Vec::new();
                v.push(Action::Yawning);
                v.push(Action::Contented);
                assert(v@ =~= seq![Action::Yawning, Action::Contented]);
                return Some(v);
            }
            return None;
        }
        let sneeze_due = now >= self.next_sneeze_at;
        let knead_due = now >= self.next_knead_at;
        if sneeze_due {
            self.next_sneeze_at = later_than(now, interval_of(self.rules.sneeze_every_minutes));
            if knead_due {
                self.next_knead_at = later_than(now, interval_of(self.rules.knead_every_minutes));
            }
            self.last_auto_at = Some(now);
            Some(Self::sequence_for(Action::Sneezing))
        } else if knead_due {
            self.next_knead_at = later_than(now, interval_of(self.rules.knead_every_minutes));
            self.last_auto_at = Some(now);
            Some(Self::sequence_for(Action::Kneading))
        } else if self.rules.behavior_enabled && now >= self.next_stretch_at {
            self.next_stretch_at = later_than(now, interval_of(self.rules.work_break_minutes));
            self.last_auto_at = Some(now);
            let mut v: Vec<Action> = Vec::new();
            v.push(Action::Stretching);
            assert(v@ =~= seq![Action::Stretching]);
            Some(v)
        } else {
            None
        }
    }

    /// One tick at the time `clock` reads (see `ticked`). While paused, the
    /// clock is not read and nothing changes.
    pub fn tick(&mut self, clock: &dyn Clock) -> (r: Option<Vec<Action>>)
        ensures
            exists|t: u128|
                #[trigger] ticked(old(self)@, t) == (final(self)@, actions_of(r)),
            old(self)@.paused ==> final(self)@ == old(self)@ && r is None,
    {
        if self.paused {
            assert(ticked(old(self)@, 0) == (self@, actions_of(None)));
            return None;
        }
        let now = clock.now();
        let r = self.tick_at(now);
        assert(ticked(old(self)@, now) == (self@, actions_of(r)));
        r
    }

    /// The actions that play, in order, when `action` fires.
    pub fn sequence_for(action: Action) -> (r: Vec<Action>)
        ensures
            r@ == sequence(action),
    {
        let mut v: Vec<Action> = Vec::new();
        match action {
            Action::Sneezing => {
                v.push(Action::Sneezing);
                v.push(Action::RubNose);
            },
            Action::Kneading => {
                v.push(Action::Kneading);
                v.push(Action::Contented);
            },
            Action::Idle => {},
            other => {
                v.push(other);
            },
        }
        assert(v@ =~= sequence(action));
        v
    }

    /// Sets the local hour, taking any hour past 23 as 23.
    pub fn set_local_hour(&mut self, hour: u8)
        ensures
            final(self)@ == (SchedulerState {
                local_hour: if hour <= 23 { hour } else { 23 },
                ..old(self)@
            }),
    {
        self.local_hour = if hour <= 23 { hour } else { 23 };
    }

    fn is_night(&self) -> (r: bool)
        ensures
            r == night_at(self@.rules, self@.local_hour),
    {
        let start = self.rules.night_start_hour;
        let end = self.rules.night_end_hour;
        if start == end {
            return false;
        }
        if start > end {
            self.local_hour >= start || self.local_hour < end
        } else {
            self.local_hour >= start && self.local_hour < end
        }
    }

    /// Takes note, at `now`, that `action` was asked for by hand (see `triggered`).
    pub fn trigger_at(&mut self, action: Action, now: u128)
        ensures
            final(self)@ == triggered(old(self)@, action, now),
    {
        proof {
            use_type_invariant(&*self);
        }
        match action {
            Action::Sneezing => {
                self.next_sneeze_at = later_than(now, interval_of(self.rules.sneeze_every_minutes));
            },
            Action::Kneading => {
                self.next_knead_at = later_than(now, interval_of(self.rules.knead_every_minutes));
            },
            _ => {},
        }
    }

    /// Takes note, at the time `clock` reads, that `action` was asked for by
    /// hand. Asking for `Idle` does nothing and reads no clock.
    pub fn trigger(&mut self, action: Action, clock: &dyn Clock)
        ensures
            exists|t: u128| #[trigger] triggered(old(self)@, action, t) == final(self)@,
    {
        if action == Action::Idle {
            assert(triggered(old(self)@, action, 0) == self@);
            return;
        }
        let now = clock.now();
        self.trigger_at(action, now);
    }

    /// Whether automatic actions are paused.
    pub fn paused(&self) -> (r: bool)
        ensures
            r == self@.paused,
    {
        self.paused
    }

    /// Pauses or resumes automatic actions.
    pub fn set_paused(&mut self, paused: bool)
        ensures
            final(self)@ == (SchedulerState { paused, ..old(self)@ }),
    {
        proof {
            use_type_invariant(&*self);
        }
        self.paused = paused;
    }

    /// Takes `rules` at `now`, giving every automatic action a fresh interval
    /// (see `reloaded`).
    pub fn reload_rules_at(&mut self, rules: Rules, now: u128)
        ensures
            final(self)@ == reloaded(old(self)@, rules@, now),
    {
        proof {
            use_type_invariant(&*self);
        }
        self.rules = rules;
        self.next_sneeze_at = later_than(now, interval_of(self.rules.sneeze_every_minutes));
        self.next_knead_at = later_than(now, interval_of(self.rules.knead_every_minutes));
        self.next_stretch_at = later_than(now, interval_of(self.rules.work_break_minutes));
        self.next_yawn_at = later_than(now, interval_of(self.rules.night_yawn_minutes));
    }

    /// Takes `rules` at the time `clock` reads (see `reloaded`).
    pub fn reload_rules(&mut self, rules: Rules, clock: &dyn Clock)
        ensures
            exists|t: u128| #[trigger] reloaded(old(self)@, rules@, t) == final(self)@,
    {
        let now = clock.now();
        self.reload_rules_at(rules, now);
    }
}

/// A scheduler does not act at the moment it is made.
pub proof fn lemma_fresh_scheduler_waits(rules: RulesView, now: u128)
    requires
        now + ONE_MINUTE_NANOS <= u128::MAX,
    ensures
        ticked(started(rules, now), now) == (started(rules, now), None::<Seq<Action>>),
{
    lemma_interval_at_least_a_minute(rules.sneeze_every_minutes);
    lemma_interval_at_least_a_minute(rules.knead_every_minutes);
    lemma_interval_at_least_a_minute(rules.work_break_minutes);
    lemma_interval_at_least_a_minute(rules.night_yawn_minutes);
}

/// While paused, a tick neither acts nor changes anything.
pub proof fn lemma_paused_holds_everything(s: SchedulerState, now: u128)
    requires
        s.paused,
    ensures
        ticked(s, now) == (s, None::<Seq<Action>>),
{
}

/// After an automatic action, a second tick at the same moment does nothing,
/// as long as the rest after an action is not zero.
pub proof fn lemma_no_second_action_at_once(s: SchedulerState, now: u128)
    requires
        ticked(s, now).1 is Some,
        length(s.rules.action_cooldown_seconds) > 0,
    ensures
        ticked(ticked(s, now).0, now) == (ticked(s, now).0, None::<Seq<Action>>),
{
}

/// A due sneeze wins over everything else that is due, outside night mode.
pub proof fn lemma_sneeze_comes_first(s: SchedulerState, now: u128)
    requires
        !s.paused,
        !resting(s, now),
        !night_mode(s),
        now >= s.next_sneeze_at,
    ensures
        ticked(s, now).1 == Some(sequence(Action::Sneezing)),
        now >= s.next_knead_at ==> ticked(s, now).0.next_knead_at == later(
            now,
            interval(s.rules.knead_every_minutes),
        ),
{
}

/// In night mode the only thing that can fire is a yawn.
pub proof fn lemma_night_only_yawns(s: SchedulerState, now: u128)
    requires
        night_mode(s),
    ensures
        ticked(s, now).1 is None || ticked(s, now).1 == Some(
            seq![Action::Yawning, Action::Contented],
        ),
{
}

/// Every interval between automatic actions is at least one minute.
pub proof fn lemma_interval_at_least_a_minute(span: Span)
    ensures
        interval(span) >= ONE_MINUTE_NANOS,
{
}

/// An automatic sneeze, kneading, stretch or yawn puts its own next turn at
/// least a minute away.
pub proof fn lemma_actions_come_a_minute_apart(s: SchedulerState, now: u128)
    requires
        now + ONE_MINUTE_NANOS <= u128::MAX,
    ensures
        ticked(s, now).1 == Some(sequence(Action::Sneezing)) ==> ticked(s, now).0.next_sneeze_at
            >= now + ONE_MINUTE_NANOS,
        ticked(s, now).1 == Some(sequence(Action::Kneading)) ==> ticked(s, now).0.next_knead_at
            >= now + ONE_MINUTE_NANOS,
        ticked(s, now).1 == Some(seq![Action::Stretching]) ==> ticked(s, now).0.next_stretch_at
            >= now + ONE_MINUTE_NANOS,
        ticked(s, now).1 == Some(seq![Action::Yawning, Action::Contented]) ==> ticked(
            s,
            now,
        ).0.next_yawn_at >= now + ONE_MINUTE_NANOS,
{
    lemma_interval_at_least_a_minute(s.rules.night_yawn_minutes);
    lemma_interval_at_least_a_minute(s.rules.sneeze_every_minutes);
    lemma_interval_at_least_a_minute(s.rules.knead_every_minutes);
    lemma_interval_at_least_a_minute(s.rules.work_break_minutes);
    lemma_sequences_differ();
}

proof fn lemma_sequences_differ()
    ensures
        sequence(Action::Sneezing) != sequence(Action::Kneading),
        sequence(Action::Sneezing) != seq![Action::Stretching],
        sequence(Action::Kneading) != seq![Action::Stretching],
        sequence(Action::Sneezing) != seq![Action::Yawning, Action::Contented],
        sequence(Action::Kneading) != seq![Action::Yawning, Action::Contented],
        seq![Action::Stretching] != seq![Action::Yawning, Action::Contented],
{
    assert(sequence(Action::Sneezing)[0] != sequence(Action::Kneading)[0]);
    assert(sequence(Action::Sneezing)[0] != seq![Action::Stretching][0]);
    assert(sequence(Action::Kneading)[0] != seq![Action::Stretching][0]);
    assert(sequence(Action::Sneezing)[0] != seq![Action::Yawning, Action::Contented][0]);
    assert(sequence(Action::Kneading)[0] != seq![Action::Yawning, Action::Contented][0]);
}

/// Asking for `Idle`, or for any action other than a sneeze or a kneading,
/// leaves the schedule as it was.
pub proof fn lemma_other_triggers_change_nothing(s: SchedulerState, action: Action, now: u128)
    requires
        action != Action::Sneezing,
        action != Action::Kneading,
    ensures
        triggered(s, action, now) == s,
{
}

/// After a sneeze asked for by hand at `now`, no automatic sneeze comes
/// before one sneeze interval has passed.
pub proof fn lemma_manual_sneeze_postpones_the_next(s: SchedulerState, now: u128, t: u128)
    requires
        t < later(now, interval(s.rules.sneeze_every_minutes)),
    ensures
        ticked(triggered(s, Action::Sneezing, now), t).1 != Some(sequence(Action::Sneezing)),
{
    lemma_sequences_differ();
}

/// Taking new rules restarts every timer as a new scheduler would, and keeps
/// the pause, the local hour and the time of the last automatic action.
pub proof fn lemma_reload_is_a_fresh_start(s: SchedulerState, rules: RulesView, now: u128)
    ensures
        reloaded(s, rules, now) == (SchedulerState {
            last_auto_at: s.last_auto_at,
            local_hour: s.local_hour,
            paused: s.paused,
            ..started(rules, now)
        }),
{
}

/// A night that starts at the hour it ends never comes.
pub proof fn lemma_empty_night(rules: RulesView, hour: u8)
    requires
        rules.night_start_hour == rules.night_end_hour,
    ensures
        !night_at(rules, hour),
{
}

/// A tick changes only the timers and the time of the last automatic action:
/// the rules, the local hour and the pause stay as they were.
pub proof fn lemma_tick_keeps_settings(s: SchedulerState, now: u128)
    ensures
        ticked(s, now).0.rules == s.rules,
        ticked(s, now).0.local_hour == s.local_hour,
        ticked(s, now).0.paused == s.paused,
{
}

/// Before any automatic action is due, a tick neither acts nor changes anything.
pub proof fn lemma_quiet_until_due(s: SchedulerState, t: u128)
    requires
        t < s.next_sneeze_at,
        t < s.next_knead_at,
        t < s.next_stretch_at,
        t < s.next_yawn_at,
    ensures
        ticked(s, t) == (s, None::<Seq<Action>>),
{
}

/// Within the first minute after a scheduler is made at `t0`, whatever local
/// hour and pause have been set since, no tick acts or changes anything.
pub proof fn lemma_first_minute_is_quiet(
    rules: RulesView,
    t0: u128,
    hour: u8,
    paused: bool,
    t: u128,
)
    requires
        t0 + ONE_MINUTE_NANOS <= u128::MAX,
        t < t0 + ONE_MINUTE_NANOS,
    ensures
        ({
            let s = SchedulerState { local_hour: hour, paused, ..started(rules, t0) };
            ticked(s, t) == (s, None::<Seq<Action>>)
        }),
{
    lemma_interval_at_least_a_minute(rules.sneeze_every_minutes);
    lemma_interval_at_least_a_minute(rules.knead_every_minutes);
    lemma_interval_at_least_a_minute(rules.work_break_minutes);
    lemma_interval_at_least_a_minute(rules.night_yawn_minutes);
    let s = SchedulerState { local_hour: hour, paused, ..started(rules, t0) };
    lemma_quiet_until_due(s, t);
}

/// A scheduler made at `now` has each automatic action due one of its own
/// intervals after `now`, no automatic action yet, the local hour at noon, and
/// is not paused.
pub proof fn lemma_start_sets_each_timer_by_its_own_interval(rules: RulesView, now: u128)
    ensures
        started(rules, now).rules == rules,
        started(rules, now).next_sneeze_at == later(now, interval(rules.sneeze_every_minutes)),
        started(rules, now).next_knead_at == later(now, interval(rules.knead_every_minutes)),
        started(rules, now).next_stretch_at == later(now, interval(rules.work_break_minutes)),
        started(rules, now).next_yawn_at == later(now, interval(rules.night_yawn_minutes)),
        started(rules, now).last_auto_at == None::<u128>,
        started(rules, now).local_hour == 12,
        !started(rules, now).paused,
{
}

/// Taking new rules at `now` sets each automatic action one of its own new
/// intervals after `now`, and keeps the pause, the local hour and the time of
/// the last automatic action.
pub proof fn lemma_reload_sets_each_timer_by_its_own_interval(
    s: SchedulerState,
    rules: RulesView,
    now: u128,
)
    ensures
        reloaded(s, rules, now).rules == rules,
        reloaded(s, rules, now).next_sneeze_at == later(now, interval(rules.sneeze_every_minutes)),
        reloaded(s, rules, now).next_knead_at == later(now, interval(rules.knead_every_minutes)),
        reloaded(s, rules, now).next_stretch_at == later(now, interval(rules.work_break_minutes)),
        reloaded(s, rules, now).next_yawn_at == later(now, interval(rules.night_yawn_minutes)),
        reloaded(s, rules, now).last_auto_at == s.last_auto_at,
        reloaded(s, rules, now).local_hour == s.local_hour,
        reloaded(s, rules, now).paused == s.paused,
{
}

/// What a tick at `now` does to the timers. A sneeze (sneezing, then rubbing
/// the nose) puts the next sneeze one full sneeze interval away and pushes back
/// a kneading that is due by one full kneading interval; a kneading (kneading,
/// then contentment) puts the next kneading one kneading interval away; a
/// stretch puts the next one a work break away; a yawn (yawning, then
/// contentment) puts the next one a yawn interval away. Every other timer is
/// left as it was, and the tick is recorded as the last automatic action. A
/// tick that fires nothing changes nothing.
pub proof fn lemma_tick_resets_only_what_fired(s: SchedulerState, now: u128)
    ensures
        ({
            let (n, out) = ticked(s, now);
            &&& out == Some(seq![Action::Sneezing, Action::RubNose]) ==> {
                &&& n.next_sneeze_at == later(now, interval(s.rules.sneeze_every_minutes))
                &&& n.next_knead_at == (if now >= s.next_knead_at {
                    later(now, interval(s.rules.knead_every_minutes))
                } else {
                    s.next_knead_at
                })
                &&& n.next_stretch_at == s.next_stretch_at
                &&& n.next_yawn_at == s.next_yawn_at
                &&& n.last_auto_at == Some(now)
            }
            &&& out == Some(seq![Action::Kneading, Action::Contented]) ==> {
                &&& n.next_knead_at == later(now, interval(s.rules.knead_every_minutes))
                &&& n.next_sneeze_at == s.next_sneeze_at
                &&& n.next_stretch_at == s.next_stretch_at
                &&& n.next_yawn_at == s.next_yawn_at
                &&& n.last_auto_at == Some(now)
            }
            &&& out == Some(seq![Action::Stretching]) ==> {
                &&& n.next_stretch_at == later(now, interval(s.rules.work_break_minutes))
                &&& n.next_sneeze_at == s.next_sneeze_at
                &&& n.next_knead_at == s.next_knead_at
                &&& n.next_yawn_at == s.next_yawn_at
                &&& n.last_auto_at == Some(now)
            }
            &&& out == Some(seq![Action::Yawning, Action::Contented]) ==> {
                &&& n.next_yawn_at == later(now, interval(s.rules.night_yawn_minutes))
                &&& n.next_sneeze_at == s.next_sneeze_at
                &&& n.next_knead_at == s.next_knead_at
                &&& n.next_stretch_at == s.next_stretch_at
                &&& n.last_auto_at == Some(now)
            }
            &&& out is None ==> n == s
        }),
{
    lemma_sequences_differ();
    assert(sequence(Action::Sneezing) =~= seq![Action::Sneezing, Action::RubNose]);
    assert(sequence(Action::Kneading) =~= seq![Action::Kneading, Action::Contented]);
}

/// A sneeze or a kneading asked for by hand moves only its own timer, to one
/// of its own intervals after `now`; every other part of the schedule stays.
pub proof fn lemma_manual_trigger_moves_only_its_timer(s: SchedulerState, now: u128)
    ensures
        ({
            let t = triggered(s, Action::Sneezing, now);
            &&& t.next_sneeze_at == later(now, interval(s.rules.sneeze_every_minutes))
            &&& t.next_knead_at == s.next_knead_at
            &&& t.next_stretch_at == s.next_stretch_at
            &&& t.next_yawn_at == s.next_yawn_at
            &&& t.rules == s.rules
            &&& t.last_auto_at == s.last_auto_at
            &&& t.local_hour == s.local_hour
            &&& t.paused == s.paused
        }),
        ({
            let t = triggered(s, Action::Kneading, now);
            &&& t.next_knead_at == later(now, interval(s.rules.knead_every_minutes))
            &&& t.next_sneeze_at == s.next_sneeze_at
            &&& t.next_stretch_at == s.next_stretch_at
            &&& t.next_yawn_at == s.next_yawn_at
            &&& t.rules == s.rules
            &&& t.last_auto_at == s.last_auto_at
            &&& t.local_hour == s.local_hour
            &&& t.paused == s.paused
        }),
{
}

} // verus!
