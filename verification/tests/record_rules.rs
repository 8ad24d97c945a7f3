use streamer::record::{TokenData, TokenGrant, REFRESH_LOOKAHEAD_SECS};

fn sample() -> TokenData {
    TokenData {
        access_token: "abc".to_string(),
        refresh_token: "def".to_string(),
        expires_at: 1_700_000_000,
        username: "alice".to_string(),
    }
}

#[test]
fn lookahead_window_is_five_minutes() {
    assert_eq!(REFRESH_LOOKAHEAD_SECS, 300);
}

#[test]
fn record_is_fresh_one_second_before_the_window() {
    let record = sample();
    assert!(!record.is_stale(1_700_000_000 - 301));
}

#[test]
fn record_is_stale_at_the_edge_of_the_window() {
    let record = sample();
    assert!(record.is_stale(1_700_000_000 - 300));
}

#[test]
fn record_is_stale_after_expiry() {
    let record = sample();
    assert!(record.is_stale(1_700_000_000));
    assert!(record.is_stale(1_700_000_001));
    assert!(record.is_stale(i64::MAX));
}

#[test]
fn record_far_in_the_future_is_fresh() {
    let mut record = sample();
    record.expires_at = i64::MAX;
    assert!(!record.is_stale(0));
    assert!(!record.is_stale(i64::MAX - 301));
    assert!(record.is_stale(i64::MAX - 300));
}

#[test]
fn record_with_smallest_expiry_is_always_stale() {
    let mut record = sample();
    record.expires_at = i64::MIN;
    assert!(record.is_stale(i64::MIN));
    assert!(record.is_stale(0));
    record.expires_at = i64::MIN + 299;
    assert!(record.is_stale(i64::MIN));
    record.expires_at = i64::MIN + 301;
    assert!(!record.is_stale(i64::MIN));
    assert!(record.is_stale(i64::MIN + 1));
}

#[test]
fn issued_record_expires_at_issuance_plus_lifetime() {
    let grant = TokenGrant {
        access_token: "acc".to_string(),
        refresh_token: "ref".to_string(),
        expires_in: 14_400,
    };
    let record = TokenData::issue(grant, "alice".to_string(), 1_700_000_000);
    assert_eq!(
        record,
        Some(TokenData {
            access_token: "acc".to_string(),
            refresh_token: "ref".to_string(),
            expires_at: 1_700_014_400,
            username: "alice".to_string(),
        })
    );
}

#[test]
fn issue_accepts_a_negative_lifetime() {
    let grant = TokenGrant {
        access_token: "acc".to_string(),
        refresh_token: "ref".to_string(),
        expires_in: -10,
    };
    let record = TokenData::issue(grant, "alice".to_string(), 100).unwrap();
    assert_eq!(record.expires_at, 90);
}

#[test]
fn issue_refuses_an_expiry_that_does_not_fit() {
    let grant = TokenGrant {
        access_token: "acc".to_string(),
        refresh_token: "ref".to_string(),
        expires_in: i64::MAX,
    };
    assert_eq!(TokenData::issue(grant.clone(), "alice".to_string(), 1), None);
    let at_limit = TokenData::issue(grant, "alice".to_string(), 0).unwrap();
    assert_eq!(at_limit.expires_at, i64::MAX);
}

#[test]
fn issue_refuses_an_expiry_below_the_range() {
    let grant = TokenGrant {
        access_token: "acc".to_string(),
        refresh_token: "ref".to_string(),
        expires_in: i64::MIN,
    };
    assert_eq!(TokenData::issue(grant, "alice".to_string(), -1), None);
}

#[test]
fn record_document_is_pretty_printed_json() {
    let text = sample().to_json();
    assert_eq!(
        text,
        "{\n  \"access_token\": \"abc\",\n  \"refresh_token\": \"def\",\n  \"expires_at\": 1700000000,\n  \"username\": \"alice\"\n}"
    );
}

#[test]
fn record_document_escapes_strings() {
    let mut record = sample();
    record.access_token = "a\"b\\c\nd".to_string();
    let text = record.to_json();
    assert!(text.contains("\"access_token\": \"a\\\"b\\\\c\\nd\""));
}

#[test]
fn record_document_writes_negative_expiry() {
    let mut record = sample();
    record.expires_at = -42;
    assert!(record.to_json().contains("\"expires_at\": -42,"));
}

#[test]
fn record_document_is_what_serde_json_reads() {
    let text = sample().to_json();
    let value: serde_json::Value = serde_json::from_str(&text).unwrap();
    assert_eq!(value.get("access_token").and_then(|v| v.as_str()), Some("abc"));
    assert_eq!(value.get("refresh_token").and_then(|v| v.as_str()), Some("def"));
    assert_eq!(value.get("expires_at").and_then(|v| v.as_i64()), Some(1_700_000_000));
    assert_eq!(value.get("username").and_then(|v| v.as_str()), Some("alice"));
    assert_eq!(value.as_object().map(|members| members.len()), Some(4));
}

#[test]
fn save_then_load_round_trip() {
    let record = sample();
    assert_eq!(TokenData::from_json(&record.to_json()), Some(record));
}

#[test]
fn round_trip_keeps_awkward_strings() {
    let record = TokenData {
        access_token: "quote\" backslash\\ newline\n tab\t".to_string(),
        refresh_token: "\u{0}\u{1f}\u{7f} caf\u{e9} \u{1f600}".to_string(),
        expires_at: i64::MIN,
        username: String::new(),
    };
    assert_eq!(TokenData::from_json(&record.to_json()), Some(record));
}

#[test]
fn round_trip_keeps_extreme_expiry() {
    let mut record = sample();
    record.expires_at = i64::MAX;
    assert_eq!(TokenData::from_json(&record.to_json()), Some(record.clone()));
    record.expires_at = 0;
    assert_eq!(TokenData::from_json(&record.to_json()), Some(record));
}

#[test]
fn from_json_reads_a_compact_document() {
    let text = r#"{"username":"bob","expires_at":12,"refresh_token":"r","access_token":"a","extra":true}"#;
    assert_eq!(
        TokenData::from_json(text),
        Some(TokenData {
            access_token: "a".to_string(),
            refresh_token: "r".to_string(),
            expires_at: 12,
            username: "bob".to_string(),
        })
    );
}

#[test]
fn from_json_refuses_text_that_is_not_json() {
    assert_eq!(TokenData::from_json(""), None);
    assert_eq!(TokenData::from_json("not json"), None);
    assert_eq!(TokenData::from_json("{\"access_token\": \"abc\""), None);
}

#[test]
fn from_json_refuses_a_missing_member() {
    let text = r#"{"access_token":"a","refresh_token":"r","expires_at":12}"#;
    assert_eq!(TokenData::from_json(text), None);
}

#[test]
fn from_json_refuses_a_member_of_the_wrong_type() {
    let text = r#"{"access_token":"a","refresh_token":"r","expires_at":"12","username":"bob"}"#;
    assert_eq!(TokenData::from_json(text), None);
    let text = r#"{"access_token":7,"refresh_token":"r","expires_at":12,"username":"bob"}"#;
    assert_eq!(TokenData::from_json(text), None);
    let text = r#"{"access_token":"a","refresh_token":"r","expires_at":12.5,"username":"bob"}"#;
    assert_eq!(TokenData::from_json(text), None);
}

#[test]
fn from_json_refuses_an_expiry_beyond_the_range() {
    let text =
        r#"{"access_token":"a","refresh_token":"r","expires_at":9223372036854775808,"username":"bob"}"#;
    assert_eq!(TokenData::from_json(text), None);
}

#[test]
fn from_json_refuses_a_document_that_is_not_an_object() {
    assert_eq!(TokenData::from_json("[\"a\",\"r\",12,\"bob\"]"), None);
    assert_eq!(TokenData::from_json("null"), None);
}

#[test]
fn from_members_needs_all_four() {
    let full = TokenData::from_members(
        Some("a".to_string()),
        Some("r".to_string()),
        Some(5),
        Some("u".to_string()),
    );
    assert_eq!(
        full,
        Some(TokenData {
            access_token: "a".to_string(),
            refresh_token: "r".to_string(),
            expires_at: 5,
            username: "u".to_string(),
        })
    );
    assert_eq!(
        TokenData::from_members(None, Some("r".to_string()), Some(5), Some("u".to_string())),
        None
    );
    assert_eq!(
        TokenData::from_members(Some("a".to_string()), None, Some(5), Some("u".to_string())),
        None
    );
    assert_eq!(
        TokenData::from_members(Some("a".to_string()), Some("r".to_string()), None, Some("u".to_string())),
        None
    );
    assert_eq!(
        TokenData::from_members(Some("a".to_string()), Some("r".to_string()), Some(5), None),
        None
    );
}

#[test]
fn clone_keeps_every_field() {
    let record = sample();
    assert_eq!(record.clone(), record);
    let grant = TokenGrant {
        access_token: "a".to_string(),
        refresh_token: "r".to_string(),
        expires_in: 9,
    };
    assert_eq!(grant.clone(), grant);
}

#[test]
fn checked_document_is_the_document() {
    let record = sample();
    assert_eq!(record.to_checked_json(), Some(record.to_json()));
}

#[test]
fn checked_document_is_handed_out_for_awkward_records() {
    let records = vec![
        TokenData {
            access_token: String::new(),
            refresh_token: String::new(),
            expires_at: 0,
            username: String::new(),
        },
        TokenData {
            access_token: "quote\" backslash\\ newline\n tab\t slash/".to_string(),
            refresh_token: "\u{0}\u{1f}\u{7f}\u{2028}\u{2029}".to_string(),
            expires_at: i64::MIN,
            username: "caf\u{e9} \u{1f600} \u{fffd}".to_string(),
        },
        TokenData {
            access_token: "{\"access_token\": \"nested\"}".to_string(),
            refresh_token: "\\u0041 \\n".to_string(),
            expires_at: i64::MAX,
            username: "a,\n  \"username\": \"mallory\"".to_string(),
        },
    ];
    for record in records {
        let document = record.to_checked_json();
        assert_eq!(document, Some(record.to_json()));
        assert_eq!(TokenData::from_json(&document.unwrap()), Some(record));
    }
}
