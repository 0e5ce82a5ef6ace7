use cloudflare_proxy::credentials::{select_credentials, ApiCredentials};
use cloudflare_proxy::record::{classify_record_type, find_record, record_kind, DnsRecordInfo, RecordKind};

fn rec(id: &str, name: &str) -> DnsRecordInfo {
    DnsRecordInfo { id: id.to_string(), name: name.to_string(), proxied: false, ttl: 1 }
}

#[test]
fn classify_known_types() {
    assert_eq!(classify_record_type("A"), Some(RecordKind::A));
    assert_eq!(classify_record_type("AAAA"), Some(RecordKind::AAAA));
    assert_eq!(classify_record_type("TXT"), Some(RecordKind::TXT));
    assert_eq!(classify_record_type("SRV"), Some(RecordKind::SRV));
    assert_eq!(classify_record_type("CNAME"), Some(RecordKind::CNAME));
}

#[test]
fn classify_is_exact() {
    assert_eq!(classify_record_type("a"), None);
    assert_eq!(classify_record_type("MX"), None);
    assert_eq!(classify_record_type(""), None);
    assert_eq!(classify_record_type("A "), None);
}

#[test]
fn record_kind_ignores_case() {
    assert_eq!(record_kind("a"), Some(RecordKind::A));
    assert_eq!(record_kind("aaaa"), Some(RecordKind::AAAA));
    assert_eq!(record_kind("Txt"), Some(RecordKind::TXT));
    assert_eq!(record_kind("cname"), Some(RecordKind::CNAME));
    assert_eq!(record_kind("mx"), None);
}

#[test]
fn record_kind_uses_unicode_uppercase() {
    // U+017F LATIN SMALL LETTER LONG S uppercases to 'S'.
    assert_eq!(record_kind("\u{17f}rv"), Some(RecordKind::SRV));
}

#[test]
fn find_record_takes_the_first_match() {
    let recs = vec![rec("1", "a.google.com"), rec("2", "vu1.google.com"), rec("3", "vu1.google.com")];
    assert_eq!(find_record(&recs, "vu1.google.com"), Some(1));
}

#[test]
fn find_record_without_match() {
    let recs = vec![rec("1", "a.google.com")];
    assert_eq!(find_record(&recs, "vu1.google.com"), None);
}

#[test]
fn credentials_prefer_the_key() {
    let c = select_credentials(
        &Some("me@example.org".to_string()),
        &Some("cfkey".to_string()),
        &Some("tok".to_string()),
    );
    match c {
        ApiCredentials::UserAuthKey { email, key } => {
            assert_eq!(email, "me@example.org");
            assert_eq!(key, "cfkey");
        },
        _ => panic!("expected key credentials"),
    }
}

#[test]
fn credentials_fall_back_to_the_token() {
    let c = select_credentials(&None, &None, &Some("tok".to_string()));
    match c {
        ApiCredentials::UserAuthToken { token } => assert_eq!(token, "tok"),
        _ => panic!("expected token credentials"),
    }
}
