use network_monitor::commands::{Alert, Device, TopDomain, TrafficEntry};
use network_monitor::normalize::{
    parse_alert, parse_alerts, parse_device, parse_devices, parse_keywords, parse_search_results,
    parse_stats, parse_top_domains, parse_traffic, parse_traffic_entry,
};

fn doc(text: &str) -> serde_json::Value {
    serde_json::from_str(text).unwrap()
}

fn bare_device(id: &str, mac: &str, ip: &str) -> Device {
    Device {
        id: id.to_string(),
        mac: mac.to_string(),
        ip: ip.to_string(),
        hostname: None,
        vendor: None,
        device_type: String::new(),
        first_seen: String::new(),
        last_seen: String::new(),
        is_online: false,
        is_monitored: false,
        has_certificate: false,
        total_bytes: 0,
        blocked_requests: 0,
        alerts: 0,
    }
}

fn bare_entry(id: &str, timestamp: &str) -> TrafficEntry {
    TrafficEntry {
        id: id.to_string(),
        timestamp: timestamp.to_string(),
        device_id: None,
        device_ip: String::new(),
        method: "GET".to_string(),
        url: String::new(),
        host: String::new(),
        path: None,
        status_code: None,
        content_type: None,
        request_size: 0,
        response_size: 0,
        duration: 0,
        is_blocked: false,
        has_alert: false,
        category: None,
    }
}

fn bare_alert(id: &str) -> Alert {
    Alert {
        id: id.to_string(),
        timestamp: "t".to_string(),
        device_id: None,
        severity: "high".to_string(),
        category: "malware".to_string(),
        title: "Found".to_string(),
        description: String::new(),
        url: None,
        matched_keywords: None,
        is_read: false,
        is_resolved: false,
    }
}

#[test]
fn a_device_with_only_what_it_must_have_gets_the_defaults() {
    let d = doc("{\"id\": \"d1\", \"mac\": \"aa:bb\", \"ip\": \"10.0.0.2\"}");
    assert_eq!(parse_device(&d), Some(bare_device("d1", "aa:bb", "10.0.0.2")));
}

#[test]
fn a_device_with_every_field_is_read_in_full() {
    let d = doc(
        "{\"id\": \"d1\", \"mac_address\": \"aa:bb\", \"ip_address\": \"10.0.0.2\", \
         \"hostname\": \"tv\", \"manufacturer\": \"Acme\", \"device_type\": \"tv\", \
         \"first_seen\": \"2024-01-01\", \"last_seen\": \"2024-01-02\", \"is_online\": true, \
         \"is_monitored\": true, \"has_certificate\": true, \"total_bytes\": 12345678901, \
         \"blocked_requests\": 7, \"alerts\": 2}",
    );
    let expected = Device {
        id: "d1".to_string(),
        mac: "aa:bb".to_string(),
        ip: "10.0.0.2".to_string(),
        hostname: Some("tv".to_string()),
        vendor: Some("Acme".to_string()),
        device_type: "tv".to_string(),
        first_seen: "2024-01-01".to_string(),
        last_seen: "2024-01-02".to_string(),
        is_online: true,
        is_monitored: true,
        has_certificate: true,
        total_bytes: 12345678901,
        blocked_requests: 7,
        alerts: 2,
    };
    assert_eq!(parse_device(&d), Some(expected));
}

#[test]
fn a_device_prefers_the_current_names() {
    let d = doc(
        "{\"id\": \"d1\", \"mac_address\": \"new\", \"mac\": \"old\", \"ip_address\": \"1.1.1.1\", \
         \"ip\": \"2.2.2.2\", \"manufacturer\": \"New\", \"vendor\": \"Old\"}",
    );
    let device = parse_device(&d).unwrap();
    assert_eq!(device.mac, "new");
    assert_eq!(device.ip, "1.1.1.1");
    assert_eq!(device.vendor, Some("New".to_string()));
    let older = doc("{\"id\": \"d1\", \"mac\": \"old\", \"ip\": \"2.2.2.2\", \"vendor\": \"Old\"}");
    let device = parse_device(&older).unwrap();
    assert_eq!(device.mac, "old");
    assert_eq!(device.ip, "2.2.2.2");
    assert_eq!(device.vendor, Some("Old".to_string()));
}

#[test]
fn a_device_without_a_required_field_is_not_read() {
    assert_eq!(parse_device(&doc("{\"mac\": \"aa\", \"ip\": \"1.1.1.1\"}")), None);
    assert_eq!(parse_device(&doc("{\"id\": \"d\", \"ip\": \"1.1.1.1\"}")), None);
    assert_eq!(parse_device(&doc("{\"id\": \"d\", \"mac\": \"aa\"}")), None);
    assert_eq!(parse_device(&doc("{\"id\": 4, \"mac\": \"aa\", \"ip\": \"1.1.1.1\"}")), None);
    assert_eq!(parse_device(&doc("\"d\"")), None);
}

#[test]
fn device_counts_keep_their_low_32_bits() {
    let d = doc(
        "{\"id\": \"d\", \"mac\": \"aa\", \"ip\": \"1.1.1.1\", \"blocked_requests\": 4294967301, \
         \"alerts\": 4294967296}",
    );
    let device = parse_device(&d).unwrap();
    assert_eq!(device.blocked_requests, 5);
    assert_eq!(device.alerts, 0);
}

#[test]
fn a_batch_of_devices_keeps_the_valid_ones_in_order() {
    let reply = doc(
        "{\"success\": true, \"devices\": [\
         {\"id\": \"a\", \"mac\": \"m1\", \"ip\": \"1.1.1.1\"}, \
         {\"mac\": \"m2\", \"ip\": \"2.2.2.2\"}, \
         17, \
         {\"id\": \"c\", \"mac\": \"m3\", \"ip\": \"3.3.3.3\"}]}",
    );
    assert_eq!(
        parse_devices(&reply),
        vec![bare_device("a", "m1", "1.1.1.1"), bare_device("c", "m3", "3.3.3.3")]
    );
}

#[test]
fn a_reply_without_a_device_array_has_no_devices() {
    assert_eq!(parse_devices(&doc("{\"success\": true}")), Vec::<Device>::new());
    assert_eq!(parse_devices(&doc("{\"devices\": {\"id\": \"a\"}}")), Vec::<Device>::new());
    assert_eq!(parse_devices(&doc("{\"devices\": []}")), Vec::<Device>::new());
    assert_eq!(parse_devices(&doc("[]")), Vec::<Device>::new());
}

#[test]
fn a_traffic_entry_with_only_what_it_must_have_gets_the_defaults() {
    let t = doc("{\"id\": \"t1\", \"timestamp\": \"2024-01-01T00:00:00\"}");
    let expected = bare_entry("t1", "2024-01-01T00:00:00");
    assert_eq!(parse_traffic_entry(&t), Some(expected));
}

#[test]
fn a_traffic_entry_with_every_field_is_read_in_full() {
    let t = doc(
        "{\"id\": \"t1\", \"timestamp\": \"now\", \"device_id\": \"d1\", \"device_ip\": \"10.0.0.2\", \
         \"method\": \"POST\", \"url\": \"https://a.example/x\", \"host\": \"a.example\", \
         \"path\": \"/x\", \"status_code\": 404, \"content_type\": \"text/html\", \
         \"request_size\": 10, \"response_size\": 20, \"duration_ms\": 30, \"blocked\": true, \
         \"alerts\": [\"a\"], \"category\": \"ads\"}",
    );
    let expected = TrafficEntry {
        id: "t1".to_string(),
        timestamp: "now".to_string(),
        device_id: Some("d1".to_string()),
        device_ip: "10.0.0.2".to_string(),
        method: "POST".to_string(),
        url: "https://a.example/x".to_string(),
        host: "a.example".to_string(),
        path: Some("/x".to_string()),
        status_code: Some(404),
        content_type: Some("text/html".to_string()),
        request_size: 10,
        response_size: 20,
        duration: 30,
        is_blocked: true,
        has_alert: true,
        category: Some("ads".to_string()),
    };
    assert_eq!(parse_traffic_entry(&t), Some(expected));
}

#[test]
fn an_entry_has_an_alert_exactly_when_its_alert_list_is_not_empty() {
    let none = doc("{\"id\": \"t\", \"timestamp\": \"x\", \"alerts\": []}");
    assert!(!parse_traffic_entry(&none).unwrap().has_alert);
    let some = doc("{\"id\": \"t\", \"timestamp\": \"x\", \"alerts\": [1, 2]}");
    assert!(parse_traffic_entry(&some).unwrap().has_alert);
    let no_list = doc("{\"id\": \"t\", \"timestamp\": \"x\", \"alerts\": 3}");
    assert!(!parse_traffic_entry(&no_list).unwrap().has_alert);
}

#[test]
fn the_older_traffic_names_are_read_where_the_current_ones_are_missing() {
    let t = doc(
        "{\"id\": \"t\", \"timestamp\": \"x\", \"response_body_type\": \"json\", \"duration\": 12}",
    );
    let read = parse_traffic_entry(&t).unwrap();
    assert_eq!(read.content_type, Some("json".to_string()));
    assert_eq!(read.duration, 12);
    let both = doc(
        "{\"id\": \"t\", \"timestamp\": \"x\", \"content_type\": \"html\", \
         \"response_body_type\": \"json\", \"duration_ms\": 3, \"duration\": 12}",
    );
    let read = parse_traffic_entry(&both).unwrap();
    assert_eq!(read.content_type, Some("html".to_string()));
    assert_eq!(read.duration, 3);
    let wrong = doc(
        "{\"id\": \"t\", \"timestamp\": \"x\", \"content_type\": 5, \
         \"response_body_type\": \"json\", \"duration_ms\": \"3\", \"duration\": 12}",
    );
    let read = parse_traffic_entry(&wrong).unwrap();
    assert_eq!(read.content_type, None);
    assert_eq!(read.duration, 0);
}

#[test]
fn a_status_code_keeps_its_low_16_bits() {
    let t = doc("{\"id\": \"t\", \"timestamp\": \"x\", \"status_code\": 65736}");
    assert_eq!(parse_traffic_entry(&t).unwrap().status_code, Some(200));
    let t = doc("{\"id\": \"t\", \"timestamp\": \"x\", \"status_code\": \"200\"}");
    assert_eq!(parse_traffic_entry(&t).unwrap().status_code, None);
}

#[test]
fn a_batch_of_traffic_drops_entries_without_id_or_timestamp() {
    let reply = doc(
        "{\"traffic\": [{\"id\": \"a\", \"timestamp\": \"1\"}, {\"id\": \"b\"}, \
         {\"timestamp\": \"3\"}, {\"id\": \"d\", \"timestamp\": \"4\", \"duration\": 8}]}",
    );
    let mut last = bare_entry("d", "4");
    last.duration = 8;
    assert_eq!(parse_traffic(&reply), vec![bare_entry("a", "1"), last]);
    assert_eq!(parse_traffic(&doc("{\"results\": [{\"id\": \"a\", \"timestamp\": \"1\"}]}")), vec![]);
}

#[test]
fn search_results_stand_under_results_and_are_read_as_listed_traffic() {
    let reply = doc(
        "{\"results\": [{\"id\": \"a\", \"timestamp\": \"1\", \"duration\": 8, \
         \"response_body_type\": \"json\"}, {\"id\": \"b\"}], \
         \"traffic\": [{\"id\": \"z\", \"timestamp\": \"9\"}]}",
    );
    let mut found = bare_entry("a", "1");
    found.duration = 8;
    found.content_type = Some("json".to_string());
    assert_eq!(parse_search_results(&reply), vec![found]);
    assert_eq!(parse_search_results(&doc("{\"success\": true}")), vec![]);
}

#[test]
fn the_same_elements_give_the_same_entries_listed_or_found() {
    let elements = "[{\"id\": \"a\", \"timestamp\": \"1\", \"duration\": 8, \"response_body_type\": \"json\"}, \
         {\"timestamp\": \"2\"}, \
         {\"id\": \"c\", \"timestamp\": \"3\", \"duration_ms\": 5, \"duration\": 8, \"content_type\": \"html\", \
          \"status_code\": 200, \"alerts\": [1], \"blocked\": true}]";
    let listed = parse_traffic(&doc(&format!("{{\"traffic\": {}}}", elements)));
    let found = parse_search_results(&doc(&format!("{{\"results\": {}}}", elements)));
    assert_eq!(listed.len(), 2);
    assert_eq!(listed, found);
}

#[test]
fn an_alert_with_only_what_it_must_have_gets_the_defaults() {
    let a = doc(
        "{\"id\": \"a1\", \"timestamp\": \"t\", \"severity\": \"high\", \"category\": \"malware\", \
         \"title\": \"Found\"}",
    );
    assert_eq!(parse_alert(&a), Some(bare_alert("a1")));
}

#[test]
fn an_alert_with_every_field_is_read_in_full() {
    let a = doc(
        "{\"id\": \"a1\", \"timestamp\": \"t\", \"severity\": \"high\", \"category\": \"malware\", \
         \"title\": \"Found\", \"device_id\": \"d1\", \"source_device\": \"d2\", \
         \"description\": \"bad\", \"url\": \"http://x\", \"matched_keyword\": \"virus\", \
         \"acknowledged\": true}",
    );
    let expected = Alert {
        id: "a1".to_string(),
        timestamp: "t".to_string(),
        device_id: Some("d1".to_string()),
        severity: "high".to_string(),
        category: "malware".to_string(),
        title: "Found".to_string(),
        description: "bad".to_string(),
        url: Some("http://x".to_string()),
        matched_keywords: Some(vec!["virus".to_string()]),
        is_read: true,
        is_resolved: true,
    };
    assert_eq!(parse_alert(&a), Some(expected));
}

#[test]
fn an_alert_names_its_device_under_the_older_name_too() {
    let a = doc(
        "{\"id\": \"a1\", \"timestamp\": \"t\", \"severity\": \"high\", \"category\": \"malware\", \
         \"title\": \"Found\", \"source_device\": \"d2\"}",
    );
    assert_eq!(parse_alert(&a).unwrap().device_id, Some("d2".to_string()));
}

#[test]
fn an_alert_without_a_required_field_is_not_read() {
    let whole = "\"id\": \"a\", \"timestamp\": \"t\", \"severity\": \"s\", \"category\": \"c\", \"title\": \"x\"";
    assert!(parse_alert(&doc(&format!("{{{}}}", whole))).is_some());
    for missing in ["id", "timestamp", "severity", "category", "title"] {
        let text = format!("{{{}}}", whole).replace(&format!("\"{}\"", missing), "\"other\"");
        assert_eq!(parse_alert(&doc(&text)), None);
    }
}

#[test]
fn a_batch_of_alerts_drops_the_malformed_ones() {
    let reply = doc(
        "{\"alerts\": [{\"id\": \"a\"}, \
         {\"id\": \"b\", \"timestamp\": \"t\", \"severity\": \"high\", \"category\": \"malware\", \"title\": \"Found\"}, \
         null, \
         {\"id\": \"c\", \"timestamp\": \"t\", \"severity\": \"high\", \"category\": \"malware\", \"title\": \"Found\"}]}",
    );
    assert_eq!(parse_alerts(&reply), vec![bare_alert("b"), bare_alert("c")]);
    assert_eq!(parse_alerts(&doc("{}")), vec![]);
}

#[test]
fn stats_are_read_from_the_stats_member() {
    let reply = doc(
        "{\"success\": true, \"device_count\": 99, \"stats\": {\"device_count\": 3, \
         \"online_devices\": 2, \"traffic_count\": 1000, \"blocked_count\": 10, \
         \"alert_count\": 5, \"unresolved_alerts\": 4, \"bytes_in\": 700, \"bytes_out\": 300, \
         \"top_domains\": {\"a.example\": 7}}}",
    );
    let stats = parse_stats(&reply);
    assert_eq!(stats.total_devices, 3);
    assert_eq!(stats.online_devices, 2);
    assert_eq!(stats.total_requests, 1000);
    assert_eq!(stats.blocked_requests, 10);
    assert_eq!(stats.total_alerts, 5);
    assert_eq!(stats.unresolved_alerts, 4);
    assert_eq!(stats.total_bandwidth, 1000);
    assert_eq!(stats.top_domains, vec![TopDomain { domain: "a.example".to_string(), count: 7 }]);
    assert!(stats.traffic_by_hour.is_empty());
}

#[test]
fn stats_are_read_from_the_reply_itself_where_it_has_no_stats_member() {
    let reply = doc("{\"success\": true, \"device_count\": 4, \"bytes_in\": 5}");
    let stats = parse_stats(&reply);
    assert_eq!(stats.total_devices, 4);
    assert_eq!(stats.total_bandwidth, 5);
    assert_eq!(stats.online_devices, 0);
    assert!(stats.top_domains.is_empty());
}

#[test]
fn the_bandwidth_is_capped_at_the_largest_count() {
    let reply = doc("{\"bytes_in\": 18446744073709551615, \"bytes_out\": 1}");
    assert_eq!(parse_stats(&reply).total_bandwidth, u64::MAX);
    let reply = doc("{\"bytes_in\": 18446744073709551614, \"bytes_out\": 1}");
    assert_eq!(parse_stats(&reply).total_bandwidth, u64::MAX);
    let reply = doc("{\"bytes_in\": 18446744073709551613, \"bytes_out\": 1}");
    assert_eq!(parse_stats(&reply).total_bandwidth, u64::MAX - 1);
}

#[test]
fn stat_counts_keep_their_low_32_bits() {
    let reply = doc("{\"stats\": {\"device_count\": 4294967297, \"alert_count\": 8589934592}}");
    let stats = parse_stats(&reply);
    assert_eq!(stats.total_devices, 1);
    assert_eq!(stats.total_alerts, 0);
}

#[test]
fn top_domains_list_every_member_once() {
    let stats = doc("{\"top_domains\": {\"b.example\": 2, \"a.example\": 7, \"c.example\": \"many\"}}");
    let mut top = parse_top_domains(&stats);
    top.sort_by(|x, y| x.domain.cmp(&y.domain));
    assert_eq!(
        top,
        vec![
            TopDomain { domain: "a.example".to_string(), count: 7 },
            TopDomain { domain: "b.example".to_string(), count: 2 },
            TopDomain { domain: "c.example".to_string(), count: 0 },
        ]
    );
    assert!(parse_top_domains(&doc("{\"top_domains\": [1, 2]}")).is_empty());
    assert!(parse_top_domains(&doc("{}")).is_empty());
}

#[test]
fn stats_of_a_reply_without_figures_are_all_zero() {
    let stats = parse_stats(&doc("{}"));
    assert_eq!(stats.total_devices, 0);
    assert_eq!(stats.online_devices, 0);
    assert_eq!(stats.total_requests, 0);
    assert_eq!(stats.blocked_requests, 0);
    assert_eq!(stats.total_alerts, 0);
    assert_eq!(stats.unresolved_alerts, 0);
    assert_eq!(stats.total_bandwidth, 0);
    assert!(stats.top_domains.is_empty());
    assert!(stats.traffic_by_hour.is_empty());
}

#[test]
fn the_keyword_list_is_read_before_the_single_keyword() {
    let a = doc("{\"matched_keywords\": [\"casino\", 7, \"poker\"], \"matched_keyword\": \"old\"}");
    assert_eq!(parse_keywords(&a), Some(vec!["casino".to_string(), "poker".to_string()]));
    let a = doc("{\"matched_keywords\": [], \"matched_keyword\": \"old\"}");
    assert_eq!(parse_keywords(&a), Some(vec![]));
    let a = doc("{\"matched_keywords\": \"casino\", \"matched_keyword\": \"old\"}");
    assert_eq!(parse_keywords(&a), None);
    let a = doc("{\"matched_keyword\": \"old\"}");
    assert_eq!(parse_keywords(&a), Some(vec!["old".to_string()]));
    let a = doc("{\"matched_keyword\": [\"old\"]}");
    assert_eq!(parse_keywords(&a), None);
    assert_eq!(parse_keywords(&doc("{}")), None);
}

#[test]
fn an_alert_carries_its_keyword_list() {
    let a = doc(
        "{\"id\": \"a1\", \"timestamp\": \"t\", \"severity\": \"high\", \"category\": \"malware\", \
         \"title\": \"Found\", \"matched_keywords\": [\"virus\", \"worm\"]}",
    );
    assert_eq!(
        parse_alert(&a).unwrap().matched_keywords,
        Some(vec!["virus".to_string(), "worm".to_string()])
    );
}
