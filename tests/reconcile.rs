use origin_reconciler::credential::{store_outcome, CredentialRelay, StorageError};
use origin_reconciler::manifest::{is_stale, VersionManifest};
use origin_reconciler::redirect::{
    count_attempts, decide_reachable, decide_versioned, next_retry_action,
    redirect_script, redirect_url, url_with_key, RedirectDecision, RetryAction, MAX_ATTEMPTS,
};

const ORIGIN: &str = "https://example.org/app/";

fn manifest(v: &str) -> Option<VersionManifest> {
    Some(VersionManifest::new(v.to_string(), None))
}

#[test]
fn stale_rules() {
    let a = manifest("1.0.0");
    let b = manifest("1.1.0");
    assert_eq!(is_stale(&a, &b), is_stale(&a, &b));
    assert!(is_stale(&None, &b));
    assert!(!is_stale(&a, &None));
    assert!(!is_stale(&None, &None));
    assert!(is_stale(&a, &b));
    assert!(!is_stale(&a, &manifest("1.0.0")));
    // a lexicographically older remote still counts as stale
    assert!(is_stale(&b, &a));
}

#[test]
fn build_date_is_ignored() {
    let l = Some(VersionManifest::new("2".to_string(), Some("2024-01-01".to_string())));
    let r = Some(VersionManifest::new("2".to_string(), Some("2025-01-01".to_string())));
    assert!(!is_stale(&l, &r));
}

#[test]
fn relay_round_trip() {
    let mut relay = CredentialRelay::new();
    assert_eq!(relay.get_secret(), None);
    relay.set_secret(Some("x".to_string()));
    assert_eq!(relay.get_secret(), Some("x".to_string()));
    relay.set_secret(Some("y".to_string()));
    assert_eq!(relay.get_secret(), Some("y".to_string()));
    relay.set_secret(None);
    assert_eq!(relay.get_secret(), None);
}

#[test]
fn store_outcome_errors() {
    assert_eq!(store_outcome(true), Ok(()));
    assert_eq!(store_outcome(false), Err(StorageError::LockFailed));
}

#[test]
fn url_carries_encoded_key() {
    let u = redirect_url(ORIGIN, &Some("abc".to_string()));
    assert_eq!(u, "https://example.org/app/?apiKey=YWJj");
}

#[test]
fn url_percent_encodes_padding() {
    let u = redirect_url(ORIGIN, &Some("a".to_string()));
    assert_eq!(u, "https://example.org/app/?apiKey=YQ%3D%3D");
}

#[test]
fn url_percent_encodes_plus_and_slash() {
    assert_eq!(redirect_url(ORIGIN, &Some("??>".to_string())), "https://example.org/app/?apiKey=Pz8%2B");
    assert_eq!(redirect_url(ORIGIN, &Some("???".to_string())), "https://example.org/app/?apiKey=Pz8%2F");
}

#[test]
fn url_without_secret_is_bare() {
    assert_eq!(redirect_url(ORIGIN, &None), ORIGIN);
    assert_eq!(redirect_url(ORIGIN, &Some(String::new())), ORIGIN);
}

#[test]
fn url_keeps_whitespace_secret() {
    assert_eq!(
        redirect_url(ORIGIN, &Some(" \t\n".to_string())),
        "https://example.org/app/?apiKey=IAkK"
    );
    assert_eq!(
        redirect_url(ORIGIN, &Some(" ".to_string())),
        "https://example.org/app/?apiKey=IA%3D%3D"
    );
}

#[test]
fn whitespace_secret_is_carried_in_both_modes() {
    let secret = Some(" ".to_string());
    let expected = "https://example.org/app/?apiKey=IA%3D%3D";
    assert!(matches!(decide_reachable(true, ORIGIN, &secret), RedirectDecision::RedirectTo(ref u) if u == expected));
    let d = decide_versioned(&manifest("1.0.0"), &manifest("1.1.0"), ORIGIN, &secret);
    assert!(matches!(d, RedirectDecision::RedirectTo(ref u) if u == expected));
}

#[test]
fn url_with_key_joins() {
    assert_eq!(url_with_key("o", "k%3D"), "o?apiKey=k%3D");
}

#[test]
fn script_text() {
    assert_eq!(redirect_script("u"), "window.location.replace('u');");
}

#[test]
fn unreachable_stays_local() {
    assert!(matches!(decide_reachable(false, ORIGIN, &Some("k".to_string())), RedirectDecision::StayLocal));
}

#[test]
fn reachable_without_secret_goes_to_bare_origin() {
    match decide_reachable(true, ORIGIN, &None) {
        RedirectDecision::RedirectTo(u) => assert_eq!(u, ORIGIN),
        RedirectDecision::StayLocal => panic!("expected a redirect"),
    }
}

#[test]
fn same_version_no_redirect() {
    let d = decide_versioned(&manifest("1.0.0"), &manifest("1.0.0"), ORIGIN, &None);
    assert!(matches!(d, RedirectDecision::StayLocal));
}

#[test]
fn newer_version_redirects_first_try() {
    let d = decide_versioned(&manifest("1.0.0"), &manifest("1.1.0"), ORIGIN, &None);
    assert!(matches!(d, RedirectDecision::RedirectTo(ref u) if u == ORIGIN));
    assert_eq!(count_attempts(&vec![true, false, false]), 1);
}

#[test]
fn missing_local_redirects() {
    let d = decide_versioned(&None, &manifest("0.0.1"), ORIGIN, &None);
    assert!(matches!(d, RedirectDecision::RedirectTo(_)));
}

#[test]
fn missing_remote_no_redirect() {
    let d = decide_versioned(&manifest("1.0.0"), &None, ORIGIN, &None);
    assert!(matches!(d, RedirectDecision::StayLocal));
}

#[test]
fn retry_stops_on_third_success() {
    assert_eq!(count_attempts(&vec![false, false, true]), 3);
    assert_eq!(next_retry_action(0, false), RetryAction::DelayThenEvaluate);
    assert_eq!(next_retry_action(1, false), RetryAction::DelayThenEvaluate);
    assert_eq!(next_retry_action(2, false), RetryAction::DelayThenEvaluate);
    assert_eq!(next_retry_action(3, true), RetryAction::Stop);
}

#[test]
fn retry_gives_up_after_limit() {
    assert_eq!(count_attempts(&vec![false, false, false, true]), MAX_ATTEMPTS);
    assert_eq!(next_retry_action(MAX_ATTEMPTS, false), RetryAction::Stop);
    assert_eq!(count_attempts(&vec![]), 0);
    assert_eq!(count_attempts(&vec![false]), 1);
}
