use mickey_companion::config::{choose_rules, playable_action, Action, Rules, Span};
use mickey_companion::version;

const MINUTE: u128 = 60_000_000_000;

#[test]
fn version_is_set() {
    assert_eq!(version(), "1.1.0");
}

#[test]
fn default_rules_have_expected_values() {
    let r = Rules::default_rules();
    assert_eq!(r.sneeze_every_minutes, Span::from_minutes(30));
    assert_eq!(r.knead_every_minutes, Span::from_minutes(5));
    assert_eq!(r.single_click, "kneading");
    assert_eq!(r.double_click, "sneezing");
}

#[test]
fn action_strings_roundtrip() {
    assert_eq!(Action::Idle.as_str(), "idle");
    assert_eq!(Action::from_name("sneezing"), Some(Action::Sneezing));
    assert_eq!(Action::from_name("nope"), None);
}

#[test]
fn click_helpers_fall_back_to_defaults_on_unknown_action() {
    let r = Rules {
        sneeze_every_minutes: Span::from_minutes(30),
        knead_every_minutes: Span::from_minutes(5),
        single_click: "unknown".to_string(),
        double_click: "unknown".to_string(),
        ..Rules::default_rules()
    };
    assert_eq!(r.action_for_single_click(), Action::Kneading);
    assert_eq!(r.action_for_double_click(), Action::Sneezing);
}

#[test]
fn every_action_name_reads_back() {
    for a in [Action::Idle, Action::Sneezing, Action::Kneading] {
        assert_eq!(Action::from_name(a.as_str()), Some(a));
    }
    assert_eq!(Action::RubNose.as_str(), "rub_nose");
    assert_eq!(Action::Contented.as_str(), "contented");
    assert_eq!(Action::HeadTilt.as_str(), "head_tilt");
    assert_eq!(Action::Yawning.as_str(), "yawning");
    assert_eq!(Action::Stretching.as_str(), "stretching");
}

#[test]
fn from_name_wants_the_exact_name() {
    assert_eq!(Action::from_name("Sneezing"), None);
    assert_eq!(Action::from_name("sneezing "), None);
    assert_eq!(Action::from_name(""), None);
    assert_eq!(Action::from_name("kneading"), Some(Action::Kneading));
}

#[test]
fn from_name_knows_only_the_three_nameable_actions() {
    assert_eq!(Action::from_name("yawning"), None);
    assert_eq!(Action::from_name("stretching"), None);
    assert_eq!(Action::from_name("rub_nose"), None);
    assert_eq!(Action::from_name("contented"), None);
    assert_eq!(Action::from_name("head_tilt"), None);
}

#[test]
fn playable_action_refuses_idle_and_unknown_names() {
    assert_eq!(playable_action("idle"), None);
    assert_eq!(playable_action("unknown"), None);
    assert_eq!(playable_action("kneading"), Some(Action::Kneading));
    assert_eq!(playable_action("sneezing"), Some(Action::Sneezing));
    assert_eq!(playable_action("head_tilt"), None);
}

#[test]
fn click_helpers_follow_their_binding() {
    let r = Rules {
        single_click: "sneezing".to_string(),
        double_click: "idle".to_string(),
        ..Rules::default_rules()
    };
    assert_eq!(r.action_for_single_click(), Action::Sneezing);
    assert_eq!(r.action_for_double_click(), Action::Idle);
}

#[test]
fn normalized_fixes_clicks_and_short_intervals() {
    let r = Rules {
        sneeze_every_minutes: Span::Finite(0),
        knead_every_minutes: Span::Finite(MINUTE / 2),
        single_click: "unknown".to_string(),
        double_click: "idle".to_string(),
        ..Rules::default_rules()
    }
    .normalized();
    assert_eq!(r.sneeze_every_minutes, Span::Finite(MINUTE));
    assert_eq!(r.knead_every_minutes, Span::Finite(MINUTE));
    assert_eq!(r.single_click, "kneading");
    assert_eq!(r.double_click, "sneezing");
}

#[test]
fn normalized_falls_back_where_an_interval_is_not_finite() {
    let r = Rules {
        sneeze_every_minutes: Span::NotFinite,
        knead_every_minutes: Span::NotFinite,
        ..Rules::default_rules()
    }
    .normalized();
    assert_eq!(r.sneeze_every_minutes, Span::from_minutes(30));
    assert_eq!(r.knead_every_minutes, Span::from_minutes(5));
}

#[test]
fn normalized_keeps_good_values_and_other_fields() {
    let r = Rules {
        sneeze_every_minutes: Span::Finite(90 * 1_000_000_000),
        knead_every_minutes: Span::from_minutes(7),
        single_click: "sneezing".to_string(),
        double_click: "kneading".to_string(),
        work_break_minutes: Span::Finite(5),
        night_start_hour: 3,
        ..Rules::default_rules()
    };
    let n = r.clone().normalized();
    assert_eq!(n.sneeze_every_minutes, Span::Finite(90 * 1_000_000_000));
    assert_eq!(n.knead_every_minutes, Span::from_minutes(7));
    assert_eq!(n.single_click, "sneezing");
    assert_eq!(n.double_click, "kneading");
    assert_eq!(n.work_break_minutes, Span::Finite(5));
    assert_eq!(n.night_start_hour, 3);
    assert_eq!(n.clone().normalized(), n);
}

#[test]
fn default_rules_are_already_normal() {
    assert_eq!(Rules::default_rules().normalized(), Rules::default_rules());
}

#[test]
fn choose_rules_prefers_external_then_bundled_then_defaults() {
    let external = Rules {
        sneeze_every_minutes: Span::from_minutes(1),
        ..Rules::default_rules()
    };
    let bundled = Rules {
        sneeze_every_minutes: Span::from_minutes(99),
        ..Rules::default_rules()
    };
    let r = choose_rules(Some(external.clone()), Some(bundled.clone()));
    assert_eq!(r, external);
    let r = choose_rules(None, Some(bundled.clone()));
    assert_eq!(r, bundled);
    let r = choose_rules(None, None);
    assert_eq!(r, Rules::default_rules());
}

#[test]
fn span_helpers_count_nanoseconds() {
    assert_eq!(Span::from_minutes(2), Span::Finite(2 * MINUTE));
    assert_eq!(Span::from_seconds(8), Span::Finite(8_000_000_000));
}

#[test]
fn normalized_rebinds_clicks_to_other_actions() {
    let r = Rules {
        single_click: "yawning".to_string(),
        double_click: "stretching".to_string(),
        ..Rules::default_rules()
    }
    .normalized();
    assert_eq!(r.single_click, "kneading");
    assert_eq!(r.double_click, "sneezing");
}
