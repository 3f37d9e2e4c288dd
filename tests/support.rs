use negma::gc::{gc_decision, gc_interval_secs, GcDecision};
use negma::setup::{config_dir, config_path, setup_plan, SetupStep};
use negma::text::{chars_of, trim};
use negma::value::{is_truthy, read_bool};

#[test]
fn config_paths_sit_below_home() {
    assert_eq!(config_dir("/home/ada"), "/home/ada/.config/negma");
    assert_eq!(config_path("/home/ada"), "/home/ada/.config/negma/config.cfg");
}

#[test]
fn setup_plan_creates_directory_then_file() {
    let plan = setup_plan("/home/ada", false);
    assert_eq!(plan.len(), 2);
    match &plan[0] {
        SetupStep::CreateDirs(p) => assert_eq!(p, "/home/ada/.config/negma"),
        _ => panic!("expected the directory first"),
    }
    match &plan[1] {
        SetupStep::WriteDefaults(p) => assert_eq!(p, "/home/ada/.config/negma/config.cfg"),
        _ => panic!("expected the file second"),
    }
}

#[test]
fn setup_plan_is_empty_when_file_exists() {
    assert!(setup_plan("/home/ada", true).is_empty());
}

#[test]
fn gc_interval_defaults_to_a_week() {
    assert_eq!(gc_interval_secs(None), 604800);
    assert_eq!(gc_interval_secs(Some(15)), 1296000);
    assert_eq!(gc_interval_secs(Some(u32::MAX)), 4294967295u64 * 86400);
}

#[test]
fn gc_decision_follows_marker_age() {
    assert_eq!(gc_decision(None, 1000, None), GcDecision::StartMarker);
    assert_eq!(gc_decision(Some(0), 604800, None), GcDecision::Collect);
    assert_eq!(gc_decision(Some(1), 604800, None), GcDecision::Wait);
    assert_eq!(gc_decision(Some(0), 86400, Some(1)), GcDecision::Collect);
    assert_eq!(gc_decision(Some(5000), 10, Some(0)), GcDecision::Collect);
    assert_eq!(gc_decision(Some(5000), 10, Some(1)), GcDecision::Wait);
}

#[test]
fn trim_drops_unicode_whitespace() {
    assert_eq!(trim("\u{3000} a b \u{a0}\t"), "a b");
    assert_eq!(trim("   "), "");
    assert_eq!(chars_of("héllo").len(), 5);
}

#[test]
fn truthy_words_after_lowercasing() {
    assert!(is_truthy("true"));
    assert!(is_truthy("yes"));
    assert!(is_truthy("1"));
    assert!(!is_truthy("TRUE"));
    assert!(read_bool("TRUE"));
    assert!(read_bool("Yes"));
    assert!(!read_bool("on"));
    assert!(!read_bool(""));
}
