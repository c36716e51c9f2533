use network_monitor::json::{
    aliased_count_or_zero, aliased_member, aliased_text, count_member, count_or_zero_member,
    flag_member, flag_or_default, text_member, text_or_default,
};

fn doc(text: &str) -> serde_json::Value {
    serde_json::from_str(text).unwrap()
}

#[test]
fn flag_member_reads_booleans_only() {
    let v = doc("{\"success\": true, \"off\": false, \"other\": 1}");
    assert_eq!(flag_member(&v, "success"), Some(true));
    assert_eq!(flag_member(&v, "off"), Some(false));
    assert_eq!(flag_member(&v, "other"), None);
    assert_eq!(flag_member(&v, "missing"), None);
}

#[test]
fn text_member_reads_strings_only() {
    let v = doc("{\"id\": \"d1\", \"n\": 3, \"b\": false, \"z\": null}");
    assert_eq!(text_member(&v, "id"), Some("d1".to_string()));
    assert_eq!(text_member(&v, "n"), None);
    assert_eq!(text_member(&v, "b"), None);
    assert_eq!(text_member(&v, "z"), None);
    assert_eq!(text_member(&doc("[1, 2]"), "id"), None);
    assert_eq!(text_member(&doc("\"id\""), "id"), None);
}

#[test]
fn count_member_reads_unsigned_integers_only() {
    let v = doc("{\"a\": 7, \"b\": -7, \"c\": 7.0, \"d\": \"7\", \"e\": 18446744073709551615}");
    assert_eq!(count_member(&v, "a"), Some(7));
    assert_eq!(count_member(&v, "b"), None);
    assert_eq!(count_member(&v, "c"), None);
    assert_eq!(count_member(&v, "d"), None);
    assert_eq!(count_member(&v, "e"), Some(u64::MAX));
    assert_eq!(count_or_zero_member(&v, "a"), 7);
    assert_eq!(count_or_zero_member(&v, "b"), 0);
    assert_eq!(count_or_zero_member(&v, "missing"), 0);
}

#[test]
fn defaults_stand_in_for_what_is_missing() {
    let v = doc("{\"kind\": \"tv\", \"on\": false, \"bad\": 3}");
    assert_eq!(text_or_default(&v, "kind", "unknown"), "tv");
    assert_eq!(text_or_default(&v, "bad", "unknown"), "unknown");
    assert_eq!(text_or_default(&v, "missing", "unknown"), "unknown");
    assert!(!flag_or_default(&v, "on", true));
    assert!(flag_or_default(&v, "bad", true));
    assert!(flag_or_default(&v, "missing", true));
    assert!(!flag_or_default(&v, "missing", false));
}

#[test]
fn the_current_key_wins_over_the_older_one() {
    let both = doc("{\"mac_address\": \"aa\", \"mac\": \"bb\"}");
    assert_eq!(aliased_text(&both, "mac_address", "mac"), Some("aa".to_string()));
    let older = doc("{\"mac\": \"bb\"}");
    assert_eq!(aliased_text(&older, "mac_address", "mac"), Some("bb".to_string()));
    let neither = doc("{}");
    assert_eq!(aliased_text(&neither, "mac_address", "mac"), None);
    assert!(aliased_member(&neither, "mac_address", "mac").is_none());
}

#[test]
fn a_current_key_of_the_wrong_type_hides_the_older_one() {
    let v = doc("{\"mac_address\": 5, \"mac\": \"bb\", \"duration_ms\": \"x\", \"duration\": 9}");
    assert_eq!(aliased_text(&v, "mac_address", "mac"), None);
    assert_eq!(aliased_count_or_zero(&v, "duration_ms", "duration"), 0);
    let older = doc("{\"duration\": 9}");
    assert_eq!(aliased_count_or_zero(&older, "duration_ms", "duration"), 9);
    let both = doc("{\"duration_ms\": 4, \"duration\": 9}");
    assert_eq!(aliased_count_or_zero(&both, "duration_ms", "duration"), 4);
}
