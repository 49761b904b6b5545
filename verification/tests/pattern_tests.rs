use wtf_scope::health::HealthBit;
use wtf_scope::pattern::{contains_pattern, find_deleted_pod, match_log_msg};

#[test]
fn stopping_container_forces_red() {
    let m = match_log_msg("Stopping container web-server").expect("rule should match");
    assert_eq!(m.verdict, HealthBit::Red);
    assert!(m.target.is_none());
}

#[test]
fn liveness_probe_forces_red() {
    let m = match_log_msg("Liveness probe failed: container X").expect("rule should match");
    assert_eq!(m.verdict, HealthBit::Red);
    assert!(m.target.is_none());
}

#[test]
fn deleted_pod_captures_the_named_pod() {
    let m = match_log_msg("Deleted pod: foo").expect("rule should match");
    assert_eq!(m.verdict, HealthBit::Red);
    assert_eq!(m.target, Some("foo".to_string()));
}

#[test]
fn deleted_pod_capture_stops_at_blank() {
    let m = match_log_msg("Deleted pod: foo bar").expect("rule should match");
    assert_eq!(m.target, Some("foo".to_string()));
}

#[test]
fn deleted_pod_capture_inside_longer_message() {
    let m = match_log_msg("controller says: Deleted pod: web-1\n").expect("rule should match");
    assert_eq!(m.verdict, HealthBit::Red);
    assert_eq!(m.target, Some("web-1".to_string()));
}

#[test]
fn deleted_pod_without_a_name_does_not_match() {
    assert!(match_log_msg("Deleted pod: ").is_none());
    assert!(match_log_msg("Deleted pod:").is_none());
}

#[test]
fn sandbox_change_forces_yellow() {
    let m = match_log_msg("Pod sandbox changed, it will be killed and re-created.")
        .expect("rule should match");
    assert_eq!(m.verdict, HealthBit::Yellow);
    assert!(m.target.is_none());
}

#[test]
fn unrelated_message_matches_no_rule() {
    assert!(match_log_msg("Successfully pulled image \"nginx\"").is_none());
    assert!(match_log_msg("").is_none());
}

#[test]
fn earlier_table_rows_win() {
    // Both the stopping-container rule and the deleted-pod rule occur;
    // the first row decides, so no alternate target is named.
    let m = match_log_msg("Stopping container x after Deleted pod: y").expect("rule should match");
    assert_eq!(m.verdict, HealthBit::Red);
    assert!(m.target.is_none());
}

#[test]
fn find_deleted_pod_reports_first_eligible_occurrence() {
    assert_eq!(find_deleted_pod("Deleted pod: a, Deleted pod: b"), Some("a,".to_string()));
    assert_eq!(find_deleted_pod("no such thing"), None);
}

#[test]
fn contains_pattern_is_plain_containment() {
    assert!(contains_pattern("abcde", "bcd"));
    assert!(contains_pattern("abc", ""));
    assert!(!contains_pattern("abc", "abcd"));
    assert!(!contains_pattern("Liveness", "Liveness probe"));
}
