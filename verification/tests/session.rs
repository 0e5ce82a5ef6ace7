use cloudflare_proxy::access::PrivilegeRow;
use cloudflare_proxy::record::{DnsRecordInfo, RecordKind};
use cloudflare_proxy::session::{Action, Event, Operation, Phase, Session};
use cloudflare_proxy::{UpdateRequest, User};

fn request(rectype: &str) -> UpdateRequest {
    UpdateRequest {
        user: "cargo".to_string(),
        key: "super_secret_key".to_string(),
        zone: "google.com".to_string(),
        rec: "vu1.google.com".to_string(),
        rectype: rectype.to_string(),
        value: "10.2.22.2".to_string(),
    }
}

fn cargo_user() -> Vec<User> {
    vec![User { id: 2, name: "cargo".to_string(), key: "super_secret_key".to_string(), disabled: false }]
}

fn pattern_rows() -> Vec<PrivilegeRow> {
    vec![("google.com".to_string(), r".*\.google\.com".to_string(), false)]
}

fn listed() -> Vec<DnsRecordInfo> {
    vec![
        DnsRecordInfo { id: "r1".to_string(), name: "other.google.com".to_string(), proxied: false, ttl: 1 },
        DnsRecordInfo { id: "r2".to_string(), name: "vu1.google.com".to_string(), proxied: true, ttl: 300 },
    ]
}

fn answer(act: Action) -> (bool, String) {
    match act {
        Action::Respond(r) => (r.success, r.e),
        other => panic!("expected an answer, got {:?}", other),
    }
}

/// Runs a session up to the point where it has fetched the zone details.
fn authorized(op: Operation) -> (Session, Action) {
    let (s, act) = Session::new(op, request("a"));
    match &act {
        Action::LoadUsers { name, key } => {
            assert_eq!(name, "cargo");
            assert_eq!(key, "super_secret_key");
        },
        _ => panic!("expected LoadUsers"),
    }
    let (s, act) = s.step(Event::UsersLoaded(cargo_user()));
    match &act {
        Action::LoadPrivileges { user_id, zone } => {
            assert_eq!(*user_id, 2);
            assert_eq!(zone, "google.com");
        },
        _ => panic!("expected LoadPrivileges"),
    }
    let (s, act) = s.step(Event::PrivilegesLoaded(pattern_rows()));
    match &act {
        Action::ListZones { name } => assert_eq!(name, "google.com"),
        _ => panic!("expected ListZones"),
    }
    let (s, act) = s.step(Event::ZonesListed(Some(vec!["zone-1".to_string(), "zone-2".to_string()])));
    match &act {
        Action::FetchZone { zone_id } => assert_eq!(zone_id, "zone-1"),
        _ => panic!("expected FetchZone"),
    }
    s.step(Event::ZoneFetched(Ok("zone-1-details".to_string())))
}

#[test]
fn update_flow_changes_the_named_record() {
    let (s, act) = authorized(Operation::Update);
    match &act {
        Action::ListRecords { zone_id, content } => {
            assert_eq!(zone_id, "zone-1-details");
            assert_eq!(content.kind, RecordKind::A);
            assert_eq!(content.value, "10.2.22.2");
        },
        _ => panic!("expected ListRecords"),
    }
    let (s, act) = s.step(Event::RecordsListed(Ok(listed())));
    match &act {
        Action::UpdateRecord { zone_id, record_id, name, content, proxied, ttl } => {
            assert_eq!(zone_id, "zone-1-details");
            assert_eq!(record_id, "r2");
            assert_eq!(name, "vu1.google.com");
            assert_eq!(content.kind, RecordKind::A);
            assert!(*proxied);
            assert_eq!(*ttl, 300);
        },
        _ => panic!("expected UpdateRecord"),
    }
    let (s, act) = s.step(Event::ChangeApplied(Ok("DnsRecord { .. }".to_string())));
    assert_eq!(answer(act), (true, "DnsRecord { .. }".to_string()));
    assert!(matches!(s.phase(), Phase::Done));
}

#[test]
fn add_flow_creates_the_requested_record() {
    let (s, act) = authorized(Operation::Add);
    match &act {
        Action::CreateRecord { zone_id, name, content, proxied, ttl, priority } => {
            assert_eq!(zone_id, "zone-1-details");
            assert_eq!(name, "vu1.google.com");
            assert_eq!(content.value, "10.2.22.2");
            assert!(!*proxied);
            assert_eq!(*ttl, None);
            assert_eq!(*priority, None);
        },
        _ => panic!("expected CreateRecord"),
    }
    let (_, act) = s.step(Event::ChangeApplied(Err("HTTP 400".to_string())));
    assert_eq!(answer(act), (false, "HTTP 400".to_string()));
}

#[test]
fn delete_flow_reports_a_failed_deletion_as_success() {
    let (s, _) = authorized(Operation::Delete);
    let (s, act) = s.step(Event::RecordsListed(Ok(listed())));
    match &act {
        Action::DeleteRecord { zone_id, record_id } => {
            assert_eq!(zone_id, "zone-1-details");
            assert_eq!(record_id, "r2");
        },
        _ => panic!("expected DeleteRecord"),
    }
    let (_, act) = s.step(Event::ChangeApplied(Err("HTTP 404".to_string())));
    assert_eq!(answer(act), (true, "HTTP 404".to_string()));
}

#[test]
fn unknown_user_is_answered_with_empty_text_on_update() {
    let (s, _) = Session::new(Operation::Update, request("A"));
    let (s, act) = s.step(Event::UsersLoaded(Vec::new()));
    assert_eq!(answer(act), (false, String::new()));
    assert!(!s.accepts(&Event::UsersLoaded(Vec::new())));
}

#[test]
fn unknown_user_is_answered_err_unknown_on_delete() {
    let (s, _) = Session::new(Operation::Delete, request("A"));
    let (_, act) = s.step(Event::UsersLoaded(Vec::new()));
    assert_eq!(answer(act), (false, "ERR_UNKNOWN".to_string()));
}

#[test]
fn missing_privilege_is_refused() {
    let (s, _) = Session::new(Operation::Add, request("A"));
    let (s, _) = s.step(Event::UsersLoaded(cargo_user()));
    let (_, act) = s.step(Event::PrivilegesLoaded(Vec::new()));
    assert_eq!(answer(act), (false, "ERR_NO_PRIV".to_string()));
}

#[test]
fn non_matching_pattern_is_refused() {
    let (s, _) = Session::new(Operation::Update, request("A"));
    let (s, _) = s.step(Event::UsersLoaded(cargo_user()));
    let rows = vec![("google.com".to_string(), r"^mail\.".to_string(), false)];
    let (_, act) = s.step(Event::PrivilegesLoaded(rows));
    assert_eq!(answer(act), (false, "ERR_NO_PRIV".to_string()));
}

#[test]
fn unsupported_record_type_is_refused() {
    let (s, _) = Session::new(Operation::Update, request("MX"));
    let (s, _) = s.step(Event::UsersLoaded(cargo_user()));
    let rows = vec![("google.com".to_string(), "^$".to_string(), true)];
    let (_, act) = s.step(Event::PrivilegesLoaded(rows));
    assert_eq!(answer(act), (false, "ERR_REC_TYPE".to_string()));
}

#[test]
fn zone_not_found() {
    let (s, _) = Session::new(Operation::Update, request("TXT"));
    let (s, _) = s.step(Event::UsersLoaded(cargo_user()));
    let (s, _) = s.step(Event::PrivilegesLoaded(pattern_rows()));
    let (_, act) = s.step(Event::ZonesListed(None));
    assert_eq!(answer(act), (false, "ERR_ZONE_NOT_FOUND".to_string()));
}

fn at_zone_details(op: Operation) -> Session {
    let (s, _) = Session::new(op, request("CNAME"));
    let (s, _) = s.step(Event::UsersLoaded(cargo_user()));
    let (s, _) = s.step(Event::PrivilegesLoaded(pattern_rows()));
    let (s, _) = s.step(Event::ZonesListed(Some(vec!["z".to_string()])));
    s
}

#[test]
fn zone_details_failure_on_update() {
    let s = at_zone_details(Operation::Update);
    let (_, act) = s.step(Event::ZoneFetched(Err("forbidden".to_string())));
    assert_eq!(answer(act), (false, "ERR_NO_SUCH_ZONE".to_string()));
}

#[test]
fn zone_details_failure_on_add_and_delete() {
    let s = at_zone_details(Operation::Add);
    let (_, act) = s.step(Event::ZoneFetched(Err("forbidden".to_string())));
    assert_eq!(answer(act), (false, "forbidden".to_string()));
    let s = at_zone_details(Operation::Delete);
    let (_, act) = s.step(Event::ZoneFetched(Err("gone".to_string())));
    assert_eq!(answer(act), (false, "gone".to_string()));
}

#[test]
fn record_listing_failure() {
    let s = at_zone_details(Operation::Update);
    let (s, _) = s.step(Event::ZoneFetched(Ok("z".to_string())));
    let (_, act) = s.step(Event::RecordsListed(Err("timeout".to_string())));
    assert_eq!(answer(act), (false, "Failed to list DNS A records: timeout".to_string()));
}

#[test]
fn record_not_found() {
    let s = at_zone_details(Operation::Delete);
    let (s, _) = s.step(Event::ZoneFetched(Ok("z".to_string())));
    let recs = vec![DnsRecordInfo { id: "r1".to_string(), name: "x.google.com".to_string(), proxied: false, ttl: 1 }];
    let (_, act) = s.step(Event::RecordsListed(Ok(recs)));
    assert_eq!(answer(act), (false, "Could not find A record for vu1.google.com".to_string()));
}

#[test]
fn invalid_pattern_hands_the_session_back() {
    let (s, _) = Session::new(Operation::Update, request("A"));
    let (s, _) = s.step(Event::UsersLoaded(cargo_user()));
    let rows = vec![("google.com".to_string(), "(".to_string(), true)];
    match s.advance(Event::PrivilegesLoaded(rows)) {
        Err(s) => assert!(matches!(s.phase(), Phase::AwaitPrivileges { user_id: 2 })),
        Ok(_) => panic!("expected the session back"),
    }
}

#[test]
fn advance_takes_valid_patterns() {
    let (s, _) = Session::new(Operation::Update, request("A"));
    let (s, _) = s.step(Event::UsersLoaded(cargo_user()));
    match s.advance(Event::PrivilegesLoaded(pattern_rows())) {
        Ok((s, Action::ListZones { .. })) => assert!(matches!(s.phase(), Phase::AwaitZones { .. })),
        _ => panic!("expected ListZones"),
    }
}

#[test]
fn accepts_only_the_awaited_answer() {
    let (s, _) = Session::new(Operation::Update, request("A"));
    assert!(s.accepts(&Event::UsersLoaded(Vec::new())));
    assert!(!s.accepts(&Event::ZonesListed(None)));
}

/// Drives a session with the given answers and returns every action it asked for.
fn drive(op: Operation, rectype: &str, events: Vec<Event>) -> Vec<Action> {
    let (mut s, first) = Session::new(op, request(rectype));
    let mut actions = vec![first];
    for e in events {
        if !s.accepts(&e) {
            break;
        }
        let (next, act) = s.step(e);
        s = next;
        actions.push(act);
    }
    actions
}

fn is_change(a: &Action) -> bool {
    matches!(a, Action::CreateRecord { .. } | Action::UpdateRecord { .. } | Action::DeleteRecord { .. })
}

#[test]
fn refused_request_never_reaches_a_change() {
    let other_zone_rows = vec![("example.org".to_string(), ".*".to_string(), true)];
    let actions = drive(
        Operation::Add,
        "A",
        vec![
            Event::UsersLoaded(cargo_user()),
            Event::PrivilegesLoaded(other_zone_rows),
            Event::ZonesListed(Some(vec!["z".to_string()])),
            Event::ZoneFetched(Ok("z".to_string())),
            Event::ChangeApplied(Ok("done".to_string())),
        ],
    );
    assert!(!actions.iter().any(is_change));
    assert_eq!(actions.len(), 3);
    assert!(matches!(actions.last(), Some(Action::Respond(r)) if !r.success && r.e == "ERR_NO_PRIV"));
}

#[test]
fn a_request_is_answered_once_and_last() {
    let actions = drive(
        Operation::Update,
        "A",
        vec![
            Event::UsersLoaded(cargo_user()),
            Event::PrivilegesLoaded(pattern_rows()),
            Event::ZonesListed(Some(vec!["z".to_string()])),
            Event::ZoneFetched(Ok("z".to_string())),
            Event::RecordsListed(Ok(listed())),
            Event::ChangeApplied(Ok("done".to_string())),
            Event::ChangeApplied(Ok("again".to_string())),
        ],
    );
    assert_eq!(actions.len(), 7);
    let answers = actions.iter().filter(|a| matches!(a, Action::Respond(_))).count();
    assert_eq!(answers, 1);
    assert!(matches!(actions.last(), Some(Action::Respond(r)) if r.success && r.e == "done"));
    assert!(is_change(&actions[actions.len() - 2]));
}

#[test]
fn getters_show_the_request() {
    let (s, _) = Session::new(Operation::Delete, request("TXT"));
    assert_eq!(s.op(), Operation::Delete);
    assert_eq!(s.request().rec, "vu1.google.com");
    assert!(matches!(s.phase(), Phase::AwaitUsers));
}

#[test]
fn type_name_case_does_not_change_the_run() {
    let events = || {
        vec![
            Event::UsersLoaded(cargo_user()),
            Event::PrivilegesLoaded(pattern_rows()),
            Event::ZonesListed(Some(vec!["z".to_string()])),
            Event::ZoneFetched(Ok("z".to_string())),
            Event::ChangeApplied(Ok("done".to_string())),
        ]
    };
    let lower = drive(Operation::Add, "txt", events());
    let upper = drive(Operation::Add, "TXT", events());
    assert_eq!(format!("{:?}", lower), format!("{:?}", upper));
}
