use vstd::prelude::*;

verus! {

/// One second, in nanoseconds: the unit in which this library measures time.
pub const ONE_SECOND_NANOS: u128 = 1_000_000_000;

/// One minute, in nanoseconds; no automatic action comes round more often.
pub const ONE_MINUTE_NANOS: u128 = 60_000_000_000;

/// What the pet does, or is asked to do.
#[derive(Clone, Copy, Debug, PartialEq, Eq, Structural)]
pub enum Action {
    Idle,
    Sneezing,
    Kneading,
    RubNose,
    Contented,
    HeadTilt,
    Yawning,
    Stretching,
}

/// The name under which an action appears in `rules.json` and in the events
/// that the front end receives.
pub open spec fn action_name(a: Action) -> Seq<char> {
    match a {
        Action::Idle => seq!['i', 'd', 'l', 'e'],
        Action::Sneezing => seq!['s', 'n', 'e', 'e', 'z', 'i', 'n', 'g'],
        Action::Kneading => seq!['k', 'n', 'e', 'a', 'd', 'i', 'n', 'g'],
        Action::RubNose => seq!['r', 'u', 'b', '_', 'n', 'o', 's', 'e'],
        Action::Contented => seq!['c', 'o', 'n', 't', 'e', 'n', 't', 'e', 'd'],
        Action::HeadTilt => seq!['h', 'e', 'a', 'd', '_', 't', 'i', 'l', 't'],
        Action::Yawning => seq!['y', 'a', 'w', 'n', 'i', 'n', 'g'],
        Action::Stretching => seq!['s', 't', 'r', 'e', 't', 'c', 'h', 'i', 'n', 'g'],
    }
}

/// Whether `a` is one of the three actions that can be named in
/// `rules.json` or asked for by name: idle, sneezing and kneading. The other
/// actions only play as parts of an automatic sequence.
pub open spec fn nameable(a: Action) -> bool {
    a == Action::Idle || a == Action::Sneezing || a == Action::Kneading
}

/// The nameable action whose name is exactly `s`, if there is one.
pub open spec fn action_named(s: Seq<char>) -> Option<Action> {
    if s == action_name(Action::Idle) {
        Some(Action::Idle)
    } else if s == action_name(Action::Sneezing) {
        Some(Action::Sneezing)
    } else if s == action_name(Action::Kneading) {
        Some(Action::Kneading)
    } else {
        None
    }
}

/// The action named `s`, unless there is none or it is `Idle`: sneezing or
/// kneading, the actions that a click or a menu entry can ask for.
pub open spec fn playable_named(s: Seq<char>) -> Option<Action> {
    match action_named(s) {
        Some(a) => if a == Action::Idle { None } else { Some(a) },
        None => None,
    }
}

/// The action named `s`, or `fallback` when `s` names none.
pub open spec fn named_or(s: Seq<char>, fallback: Action) -> Action {
    match action_named(s) {
        Some(a) => a,
        None => fallback,
    }
}

/// The playable action named `s`, or `fallback` when `s` names none or names `Idle`.
pub open spec fn playable_or(s: Seq<char>, fallback: Action) -> Action {
    match playable_named(s) {
        Some(a) => a,
        None => fallback,
    }
}

impl Action {
    /// The action's name.
    pub fn as_str(&self) -> (r: &'static str)
        ensures
            r@ == action_name(*self),
    {
        match self {
            Action::Idle => {
                proof {
                    reveal_strlit("idle");
                }
                "idle"
            },
            Action::Sneezing => {
                proof {
                    reveal_strlit("sneezing");
                }
                "sneezing"
            },
            Action::Kneading => {
                proof {
                    reveal_strlit("kneading");
                }
                "kneading"
            },
            Action::RubNose => {
                proof {
                    reveal_strlit("rub_nose");
                }
                "rub_nose"
            },
            Action::Contented => {
                proof {
                    reveal_strlit("contented");
                }
                "contented"
            },
            Action::HeadTilt => {
                proof {
                    reveal_strlit("head_tilt");
                }
                "head_tilt"
            },
            Action::Yawning => {
                proof {
                    reveal_strlit("yawning");
                }
                "yawning"
            },
            Action::Stretching => {
                proof {
                    reveal_strlit("stretching");
                }
                "stretching"
            },
        }
    }

    /// The nameable action (idle, sneezing or kneading) whose name is exactly
    /// `s`; `None` for any other text.
    pub fn from_name(s: &str) -> (r: Option<Self>)
        ensures
            r == action_named(s@),
    {
        let given = s.to_owned();
        let mut i: usize = 0;
        let all: [Action; 3] = [Action::Idle, Action::Sneezing, Action::Kneading];
        while i < 3
            invariant
                0 <= i <= 3,
                given@ == s@,
                all@ == all_actions(),
                forall|j: int| 0 <= j < i ==> s@ != action_name(#[trigger] all@[j]),
            decreases 3 - i,
        {
            let candidate = all[i];
            let name = candidate.as_str().to_owned();
            if given == name {
                proof {
                    lemma_named_first(s@, i as int);
                }
                return Some(candidate);
            }
            i = i + 1;
        }
        proof {
            lemma_named_none(s@);
        }
        None
    }
}

/// The nameable actions, in the order in which `action_named` tries them.
pub open spec fn all_actions() -> Seq<Action> {
    seq![Action::Idle, Action::Sneezing, Action::Kneading]
}

proof fn lemma_named_first(s: Seq<char>, i: int)
    requires
        0 <= i < 3,
        s == action_name(all_actions()[i]),
        forall|j: int| 0 <= j < i ==> s != action_name(#[trigger] all_actions()[j]),
    ensures
        action_named(s) == Some(all_actions()[i]),
{
    lemma_names_differ();
}

proof fn lemma_named_none(s: Seq<char>)
    requires
        forall|j: int| 0 <= j < 3 ==> s != action_name(#[trigger] all_actions()[j]),
    ensures
        action_named(s) is None,
{
    assert(s != action_name(all_actions()[0]));
    assert(s != action_name(all_actions()[1]));
    assert(s != action_name(all_actions()[2]));
}

/// No two actions share a name.
proof fn lemma_names_differ()
    ensures
        forall|a: Action, b: Action| a != b ==> action_name(a) != action_name(b),
{
    assert forall|a: Action, b: Action| a != b implies action_name(a) != action_name(b) by {
        let x = action_name(a);
        let y = action_name(b);
        if x.len() == y.len() {
            if x[0] == y[0] {
                assert(x[1] != y[1] || x[2] != y[2]);
            } else {
                assert(x[0] != y[0]);
            }
        }
    }
}

/// Reading back the name of a nameable action gives that action; the names of
/// the other actions are not read as any action.
pub proof fn lemma_name_roundtrip(a: Action)
    ensures
        action_named(action_name(a)) == (if nameable(a) { Some(a) } else { None }),
{
    lemma_names_differ();
}

/// Only the exact name of an action is read as that action.
pub proof fn lemma_names_are_exact(s: Seq<char>, a: Action)
    requires
        action_named(s) == Some(a),
    ensures
        s == action_name(a),
{
}

/// The action that `name` asks for, sneezing or kneading: `None` when `name`
/// is no nameable action's name, or names `Idle`.
pub fn playable_action(name: &str) -> (r: Option<Action>)
    ensures
        r == playable_named(name@),
{
    match Action::from_name(name) {
        Some(a) => if a == Action::Idle { None } else { Some(a) },
        None => None,
    }
}

/// A length of time read from the rules file. `Finite(n)` lasts `n`
/// nanoseconds (a negative number in the file counts as zero); `NotFinite`
/// stands for a number in the file that is not finite.
#[derive(Clone, Copy, Debug, PartialEq, Eq, Structural)]
pub enum Span {
    Finite(u128),
    NotFinite,
}

impl Span {
    /// A whole number of minutes.
    pub fn from_minutes(minutes: u64) -> (r: Span)
        ensures
            r == Span::Finite((minutes * ONE_MINUTE_NANOS) as u128),
    {
        Span::Finite(minutes as u128 * ONE_MINUTE_NANOS)
    }

    /// A whole number of seconds.
    pub fn from_seconds(seconds: u64) -> (r: Span)
        ensures
            r == Span::Finite((seconds * ONE_SECOND_NANOS) as u128),
    {
        Span::Finite(seconds as u128 * ONE_SECOND_NANOS)
    }
}

/// A length of time to wait between two automatic actions: `span` itself, but
/// never less than one minute; a value that is not finite counts as one minute.
pub open spec fn interval(span: Span) -> u128 {
    match span {
        Span::Finite(n) => if n < ONE_MINUTE_NANOS { ONE_MINUTE_NANOS } else { n },
        Span::NotFinite => ONE_MINUTE_NANOS,
    }
}

/// `span` taken as it stands, with no floor; a value that is not finite lasts
/// for ever (`u128::MAX`).
pub open spec fn length(span: Span) -> u128 {
    match span {
        Span::Finite(n) => n,
        Span::NotFinite => u128::MAX,
    }
}

/// An interval as `normalized` keeps it: at least one minute, and `fallback`
/// where the value is not finite.
pub open spec fn valid_interval(span: Span, fallback: u128) -> Span {
    match span {
        Span::Finite(n) => Span::Finite(if n < ONE_MINUTE_NANOS { ONE_MINUTE_NANOS } else { n }),
        Span::NotFinite => Span::Finite(fallback),
    }
}

/// The timings and click bindings read from `rules.json`.
#[derive(Clone, Debug, PartialEq)]
pub struct Rules {
    pub sneeze_every_minutes: Span,
    pub knead_every_minutes: Span,
    pub single_click: String,
    pub double_click: String,
    pub work_break_minutes: Span,
    pub night_yawn_minutes: Span,
    pub action_cooldown_seconds: Span,
    pub behavior_enabled: bool,
    pub night_quiet_enabled: bool,
    pub night_start_hour: u8,
    pub night_end_hour: u8,
}

/// `Rules` with its two click bindings read as text.
pub struct RulesView {
    pub sneeze_every_minutes: Span,
    pub knead_every_minutes: Span,
    pub single_click: Seq<char>,
    pub double_click: Seq<char>,
    pub work_break_minutes: Span,
    pub night_yawn_minutes: Span,
    pub action_cooldown_seconds: Span,
    pub behavior_enabled: bool,
    pub night_quiet_enabled: bool,
    pub night_start_hour: u8,
    pub night_end_hour: u8,
}

impl View for Rules {
    type V = RulesView;

    open spec fn view(&self) -> RulesView {
        RulesView {
            sneeze_every_minutes: self.sneeze_every_minutes,
            knead_every_minutes: self.knead_every_minutes,
            single_click: self.single_click@,
            double_click: self.double_click@,
            work_break_minutes: self.work_break_minutes,
            night_yawn_minutes: self.night_yawn_minutes,
            action_cooldown_seconds: self.action_cooldown_seconds,
            behavior_enabled: self.behavior_enabled,
            night_quiet_enabled: self.night_quiet_enabled,
            night_start_hour: self.night_start_hour,
            night_end_hour: self.night_end_hour,
        }
    }
}

/// The built-in rules: a sneeze every 30 minutes, kneading every 5, a click
/// kneads and a double click sneezes; a stretch every 50 minutes in the day, a
/// yawn every 30 minutes at night (22:00 to 07:00), and 8 seconds of rest after
/// each automatic action.
pub open spec fn default_rules_view() -> RulesView {
    RulesView {
        sneeze_every_minutes: Span::Finite((30 * ONE_MINUTE_NANOS) as u128),
        knead_every_minutes: Span::Finite((5 * ONE_MINUTE_NANOS) as u128),
        single_click: action_name(Action::Kneading),
        double_click: action_name(Action::Sneezing),
        work_break_minutes: Span::Finite((50 * ONE_MINUTE_NANOS) as u128),
        night_yawn_minutes: Span::Finite((30 * ONE_MINUTE_NANOS) as u128),
        action_cooldown_seconds: Span::Finite((8 * ONE_SECOND_NANOS) as u128),
        behavior_enabled: true,
        night_quiet_enabled: true,
        night_start_hour: 22,
        night_end_hour: 7,
    }
}

/// What `normalized` makes of rules: the sneeze and knead intervals at least
/// one minute (30 and 5 minutes where they are not finite), and each click
/// bound to sneezing or kneading (kneading and sneezing where it names
/// neither).
pub open spec fn normalize(r: RulesView) -> RulesView {
    RulesView {
        sneeze_every_minutes: valid_interval(r.sneeze_every_minutes, (30 * ONE_MINUTE_NANOS) as u128),
        knead_every_minutes: valid_interval(r.knead_every_minutes, (5 * ONE_MINUTE_NANOS) as u128),
        single_click: action_name(playable_or(r.single_click, Action::Kneading)),
        double_click: action_name(playable_or(r.double_click, Action::Sneezing)),
        ..r
    }
}

impl Rules {
    /// The built-in rules (see `default_rules_view`).
    pub fn default_rules() -> (r: Self)
        ensures
            r@ == default_rules_view(),
    {
        Rules {
            sneeze_every_minutes: Span::from_minutes(30),
            knead_every_minutes: Span::from_minutes(5),
            single_click: Action::Kneading.as_str().to_owned(),
            double_click: Action::Sneezing.as_str().to_owned(),
            work_break_minutes: Span::from_minutes(50),
            night_yawn_minutes: Span::from_minutes(30),
            action_cooldown_seconds: Span::from_seconds(8),
            behavior_enabled: true,
            night_quiet_enabled: true,
            night_start_hour: 22,
            night_end_hour: 7,
        }
    }

    /// These rules with short or undefined intervals and unusable click
    /// bindings replaced (see `normalize`).
    pub fn normalized(self) -> (r: Self)
        ensures
            r@ == normalize(self@),
    {
        let single = match playable_action(self.single_click.as_str()) {
            Some(a) => a,
            None => Action::Kneading,
        };
        let double = match playable_action(self.double_click.as_str()) {
            Some(a) => a,
            None => Action::Sneezing,
        };
        Rules {
            sneeze_every_minutes: interval_or(self.sneeze_every_minutes, 30 * ONE_MINUTE_NANOS),
            knead_every_minutes: interval_or(self.knead_every_minutes, 5 * ONE_MINUTE_NANOS),
            single_click: single.as_str().to_owned(),
            double_click: double.as_str().to_owned(),
            work_break_minutes: self.work_break_minutes,
            night_yawn_minutes: self.night_yawn_minutes,
            action_cooldown_seconds: self.action_cooldown_seconds,
            behavior_enabled: self.behavior_enabled,
            night_quiet_enabled: self.night_quiet_enabled,
            night_start_hour: self.night_start_hour,
            night_end_hour: self.night_end_hour,
        }
    }

    /// The action that a single click asks for: the one it is bound to, or
    /// kneading when the binding names no action.
    pub fn action_for_single_click(&self) -> (r: Action)
        ensures
            r == named_or(self.single_click@, Action::Kneading),
    {
        match Action::from_name(self.single_click.as_str()) {
            Some(a) => a,
            None => Action::Kneading,
        }
    }

    /// The action that a double click asks for: the one it is bound to, or
    /// sneezing when the binding names no action.
    pub fn action_for_double_click(&self) -> (r: Action)
        ensures
            r == named_or(self.double_click@, Action::Sneezing),
    {
        match Action::from_name(self.double_click.as_str()) {
            Some(a) => a,
            None => Action::Sneezing,
        }
    }
}

fn interval_or(span: Span, fallback: u128) -> (r: Span)
    ensures
        r == valid_interval(span, fallback),
{
    match span {
        Span::Finite(n) => Span::Finite(if n < ONE_MINUTE_NANOS { ONE_MINUTE_NANOS } else { n }),
        Span::NotFinite => Span::Finite(fallback),
    }
}

/// The rules to use, by priority: those read from the external file when it
/// could be read and parsed, else those of the bundled file, else the
/// built-in ones.
pub fn choose_rules(external: Option<Rules>, bundled: Option<Rules>) -> (r: Rules)
    ensures
        external is Some ==> r == external->0,
        external is None && bundled is Some ==> r == bundled->0,
        external is None && bundled is None ==> r@ == default_rules_view(),
{
    match external {
        Some(rules) => rules,
        None => match bundled {
            Some(rules) => rules,
            None => Rules::default_rules(),
        },
    }
}

/// Normalizing twice changes nothing more than normalizing once.
pub proof fn lemma_normalize_idempotent(r: RulesView)
    ensures
        normalize(normalize(r)) == normalize(r),
{
    let n = normalize(r);
    lemma_name_roundtrip(playable_or(r.single_click, Action::Kneading));
    lemma_name_roundtrip(playable_or(r.double_click, Action::Sneezing));
    assert(normalize(n) =~= n);
}

/// Normalized rules bind both clicks to sneezing or kneading, and schedule
/// sneezes and kneading no more often than once a minute.
pub proof fn lemma_normalized_rules_are_usable(r: RulesView)
    ensures
        playable_or(r.single_click, Action::Kneading) == Action::Sneezing || playable_or(
            r.single_click,
            Action::Kneading,
        ) == Action::Kneading,
        playable_named(normalize(r).single_click) is Some,
        playable_named(normalize(r).double_click) is Some,
        normalize(r).sneeze_every_minutes matches Span::Finite(n) && n >= ONE_MINUTE_NANOS,
        normalize(r).knead_every_minutes matches Span::Finite(n) && n >= ONE_MINUTE_NANOS,
{
    lemma_name_roundtrip(playable_or(r.single_click, Action::Kneading));
    lemma_name_roundtrip(playable_or(r.double_click, Action::Sneezing));
}

/// The built-in rules are already normal.
pub proof fn lemma_default_rules_are_normal()
    ensures
        normalize(default_rules_view()) == default_rules_view(),
{
    lemma_name_roundtrip(Action::Kneading);
    lemma_name_roundtrip(Action::Sneezing);
    assert(normalize(default_rules_view()) =~= default_rules_view());
}

/// A click bound to the name of a nameable action asks for that action,
/// whatever the fallback; a binding that names no action asks for the fallback.
pub proof fn lemma_click_gives_its_bound_action(a: Action, fallback: Action, s: Seq<char>)
    ensures
        nameable(a) ==> named_or(action_name(a), fallback) == a,
        (a == Action::Sneezing || a == Action::Kneading) ==> playable_or(action_name(a), fallback)
            == a,
        action_named(s) is None ==> named_or(s, fallback) == fallback && playable_or(s, fallback)
            == fallback,
{
    lemma_name_roundtrip(a);
}

/// Normalizing keeps a sneeze or kneading interval that is finite and at least
/// a minute exactly as it is, raises a shorter one to one minute, and replaces
/// one that is not finite with 30 minutes (sneeze) or 5 minutes (kneading).
/// A click already bound to sneezing or kneading keeps its binding, and every
/// field other than the two intervals and the two clicks stays as it was.
pub proof fn lemma_normalize_keeps_what_is_valid(r: RulesView)
    ensures
        (r.sneeze_every_minutes matches Span::Finite(n) && n >= ONE_MINUTE_NANOS) ==> normalize(
            r,
        ).sneeze_every_minutes == r.sneeze_every_minutes,
        (r.knead_every_minutes matches Span::Finite(n) && n >= ONE_MINUTE_NANOS) ==> normalize(
            r,
        ).knead_every_minutes == r.knead_every_minutes,
        (r.sneeze_every_minutes matches Span::Finite(n) && n < ONE_MINUTE_NANOS) ==> normalize(
            r,
        ).sneeze_every_minutes == Span::Finite(ONE_MINUTE_NANOS),
        (r.knead_every_minutes matches Span::Finite(n) && n < ONE_MINUTE_NANOS) ==> normalize(
            r,
        ).knead_every_minutes == Span::Finite(ONE_MINUTE_NANOS),
        r.sneeze_every_minutes == Span::NotFinite ==> normalize(r).sneeze_every_minutes
            == Span::Finite(1_800_000_000_000),
        r.knead_every_minutes == Span::NotFinite ==> normalize(r).knead_every_minutes
            == Span::Finite(300_000_000_000),
        (r.single_click == action_name(Action::Sneezing) || r.single_click == action_name(
            Action::Kneading,
        )) ==> normalize(r).single_click == r.single_click,
        (r.double_click == action_name(Action::Sneezing) || r.double_click == action_name(
            Action::Kneading,
        )) ==> normalize(r).double_click == r.double_click,
        normalize(r).work_break_minutes == r.work_break_minutes,
        normalize(r).night_yawn_minutes == r.night_yawn_minutes,
        normalize(r).action_cooldown_seconds == r.action_cooldown_seconds,
        normalize(r).behavior_enabled == r.behavior_enabled,
        normalize(r).night_quiet_enabled == r.night_quiet_enabled,
        normalize(r).night_start_hour == r.night_start_hour,
        normalize(r).night_end_hour == r.night_end_hour,
{
    lemma_name_roundtrip(Action::Sneezing);
    lemma_name_roundtrip(Action::Kneading);
}

} // verus!
