use cloudflare_proxy::access::{
    find_site_of_zone, find_user_named, grant_from_matches, patterns_valid, privileges_grant, select_user, try_privileges_grant,
    PrivilegeRow,
};
use cloudflare_proxy::User;

fn user(id: i32, name: &str, key: &str, disabled: bool) -> User {
    User { id, name: name.to_string(), key: key.to_string(), disabled }
}

fn row(zone: &str, pattern: &str, superuser: bool) -> PrivilegeRow {
    (zone.to_string(), pattern.to_string(), superuser)
}

#[test]
fn select_user_finds_the_single_match() {
    let users = vec![user(1, "alice", "k1", false), user(2, "cargo", "super_secret_key", false)];
    assert_eq!(select_user(&users, "cargo", "super_secret_key"), Some(1));
}

#[test]
fn select_user_refuses_a_wrong_key() {
    let users = vec![user(2, "cargo", "super_secret_key", false)];
    assert_eq!(select_user(&users, "cargo", "other"), None);
}

#[test]
fn select_user_refuses_a_disabled_user() {
    let users = vec![user(2, "cargo", "k", true)];
    assert_eq!(select_user(&users, "cargo", "k"), None);
}

#[test]
fn select_user_refuses_two_matches() {
    let users = vec![user(2, "cargo", "k", false), user(3, "cargo", "k", false)];
    assert_eq!(select_user(&users, "cargo", "k"), None);
}

#[test]
fn select_user_ignores_disabled_duplicates() {
    let users = vec![user(2, "cargo", "k", true), user(3, "cargo", "k", false)];
    assert_eq!(select_user(&users, "cargo", "k"), Some(1));
}

#[test]
fn select_user_of_no_users() {
    let users: Vec<User> = Vec::new();
    assert_eq!(select_user(&users, "cargo", "k"), None);
}

#[test]
fn pattern_grants_a_matching_record() {
    let rows = vec![row("google.com", r".*\.google\.com", false)];
    assert!(privileges_grant(&rows, "google.com", "vu1.google.com"));
}

#[test]
fn pattern_refuses_another_record() {
    let rows = vec![row("google.com", r".*\.google\.com", false)];
    assert!(!privileges_grant(&rows, "google.com", "vu1.example.org"));
}

#[test]
fn pattern_search_is_unanchored() {
    let rows = vec![row("google.com", r"vu1", false)];
    assert!(privileges_grant(&rows, "google.com", "a.vu1.google.com"));
}

#[test]
fn superuser_grants_any_record() {
    let rows = vec![row("google.com", "^never$", true)];
    assert!(privileges_grant(&rows, "google.com", "anything.google.com"));
}

#[test]
fn rows_of_another_zone_grant_nothing() {
    let rows = vec![row("example.org", ".*", true)];
    assert!(!privileges_grant(&rows, "google.com", "vu1.google.com"));
}

#[test]
fn no_rows_grant_nothing() {
    let rows: Vec<PrivilegeRow> = Vec::new();
    assert!(!privileges_grant(&rows, "google.com", "vu1.google.com"));
}

#[test]
fn one_granting_row_among_others_suffices() {
    let rows = vec![row("google.com", "^mail", false), row("google.com", "^vu1", false)];
    assert!(privileges_grant(&rows, "google.com", "vu1.google.com"));
}

#[test]
fn invalid_pattern_is_detected() {
    let rows = vec![row("google.com", "foo(bar", false)];
    assert!(!patterns_valid(&rows, "google.com"));
    assert_eq!(try_privileges_grant(&rows, "google.com", "foo"), None);
}

#[test]
fn invalid_pattern_of_another_zone_is_ignored() {
    let rows = vec![row("example.org", "foo(bar", false), row("google.com", "^vu1", false)];
    assert!(patterns_valid(&rows, "google.com"));
    assert_eq!(try_privileges_grant(&rows, "google.com", "vu1.google.com"), Some(true));
}

#[test]
fn invalid_pattern_under_superuser_is_still_detected() {
    let rows = vec![row("google.com", "(", true)];
    assert_eq!(try_privileges_grant(&rows, "google.com", "vu1.google.com"), None);
}

fn site(id: i32, zone: &str) -> cloudflare_proxy::Site {
    cloudflare_proxy::Site { id, name: format!("site{}", id), zone: zone.to_string(), disabled: false }
}

#[test]
fn find_user_named_needs_exactly_one() {
    let users = vec![user(1, "alice", "k", false), user(2, "cargo", "k2", true)];
    assert_eq!(find_user_named(&users, "cargo"), Some(1));
    assert_eq!(find_user_named(&users, "bob"), None);
    let twice = vec![user(1, "cargo", "a", false), user(2, "cargo", "b", false)];
    assert_eq!(find_user_named(&twice, "cargo"), None);
}

#[test]
fn find_site_of_zone_needs_exactly_one() {
    let sites = vec![site(1, "example.org"), site(2, "google.com")];
    assert_eq!(find_site_of_zone(&sites, "google.com"), Some(1));
    assert_eq!(find_site_of_zone(&sites, "google.de"), None);
    let twice = vec![site(1, "google.com"), site(2, "google.com")];
    assert_eq!(find_site_of_zone(&twice, "google.com"), None);
}

#[test]
fn grant_from_matches_uses_the_given_answers() {
    let rows = vec![row("google.com", "p1", false), row("google.com", "p2", false), row("example.org", "p3", true)];
    assert!(!grant_from_matches(&rows, "google.com", &vec![false, false, true]));
    assert!(grant_from_matches(&rows, "google.com", &vec![false, true, false]));
    assert!(grant_from_matches(&rows, "example.org", &vec![false, false, false]));
    assert!(!grant_from_matches(&rows, "google.de", &vec![true, true, true]));
}

#[test]
fn grant_from_matches_superuser_row_needs_no_match() {
    let rows = vec![row("google.com", "p1", true)];
    assert!(grant_from_matches(&rows, "google.com", &vec![false]));
}
