use network_monitor::commands::{
    add_block_rule, change_stealth_profile, check_domain, cleanup_database, delete_alert,
    export_data, generate_certificate, get_alerts, get_block_config, get_cert_url, get_devices,
    get_network_interfaces, get_settings, get_stats, get_stealth_profiles, get_traffic,
    get_traffic_details, mark_alert_read, mark_all_alerts_read, remove_block_rule, resolve_alert,
    scan_devices, search_traffic, set_device_monitoring, toggle_category, Alert, BlockCategory,
    BlockRule, HourlyTraffic, Settings,
};
use network_monitor::replies::{
    acknowledged, alerts_reply, cert_url_reply, certificate_reply, devices_reply, reply_failure,
    reply_succeeded, search_reply, stats_reply, stealth_profile_applied, traffic_details_reply,
    traffic_reply, unread_alerts,
};
use network_monitor::settings::{
    default_settings, get_config_path, load_settings, settings_file_name, with_device_profile,
    SettingsFile,
};
use network_monitor::error::{io_failure, plain_failure, CommandError, ErrorKind, Fault};
use network_monitor::python::Invocation;
use network_monitor::state::AppState;

const DB: &str = "python/database/db_manager.py";
const BLOCKER: &str = "python/blocking/blocker.py";
const ALERTS: &str = "python/alerts/alert_engine.py";

fn doc(text: &str) -> serde_json::Value {
    serde_json::from_str(text).unwrap()
}

fn call(script: &str, list: &[&str]) -> Invocation {
    Invocation { script: script.to_string(), args: list.iter().map(|a| a.to_string()).collect() }
}

fn alert(id: &str, read: bool) -> Alert {
    Alert {
        id: id.to_string(),
        timestamp: "t".to_string(),
        device_id: None,
        severity: "high".to_string(),
        category: "malware".to_string(),
        title: "Found".to_string(),
        description: String::new(),
        url: None,
        matched_keywords: None,
        is_read: read,
        is_resolved: read,
    }
}

#[test]
fn adding_a_domain_rule_issues_the_block_action() {
    assert_eq!(
        add_block_rule("domain", "ads.example.com"),
        Ok(call(BLOCKER, &["--action", "block", "--domain", "ads.example.com"]))
    );
    assert_eq!(acknowledged(&doc("{\"success\":true}")), Ok(()));
    let error = acknowledged(&doc("{\"success\":false,\"error\":\"invalid domain\"}")).unwrap_err();
    assert_eq!(error.kind, ErrorKind::Domain);
    assert_eq!(error.message, "invalid domain");
    assert_eq!(error.to_string(), "invalid domain");
}

#[test]
fn a_rule_of_an_unknown_type_is_refused_before_any_worker_runs() {
    let error = add_block_rule("unknown", "x").unwrap_err();
    assert_eq!(error.kind, ErrorKind::UnsupportedRuleType);
    assert_eq!(error.message, "Unknown rule type: unknown");
    let error = remove_block_rule("", "x").unwrap_err();
    assert_eq!(error.kind, ErrorKind::UnsupportedRuleType);
    assert_eq!(error.message, "Unknown rule type: ");
    assert!(add_block_rule("Domain", "x").is_err());
}

#[test]
fn each_rule_type_has_its_action_and_flag() {
    assert_eq!(
        add_block_rule("category", "gambling"),
        Ok(call(BLOCKER, &["--action", "block-category", "--category", "gambling"]))
    );
    assert_eq!(
        add_block_rule("keyword", "casino"),
        Ok(call(BLOCKER, &["--action", "add-keyword", "--keyword", "casino"]))
    );
    assert_eq!(
        remove_block_rule("domain", "ads.example.com"),
        Ok(call(BLOCKER, &["--action", "unblock", "--domain", "ads.example.com"]))
    );
    assert_eq!(
        remove_block_rule("category", "gambling"),
        Ok(call(BLOCKER, &["--action", "unblock-category", "--category", "gambling"]))
    );
    assert_eq!(
        remove_block_rule("keyword", "casino"),
        Ok(call(BLOCKER, &["--action", "remove-keyword", "--keyword", "casino"]))
    );
}

#[test]
fn a_reply_succeeds_only_with_a_true_success_flag() {
    assert!(reply_succeeded(&doc("{\"success\": true}")));
    assert!(!reply_succeeded(&doc("{\"success\": false}")));
    assert!(!reply_succeeded(&doc("{\"success\": \"true\"}")));
    assert!(!reply_succeeded(&doc("{\"success\": 1}")));
    assert!(!reply_succeeded(&doc("{}")));
    assert!(!reply_succeeded(&doc("[true]")));
}

#[test]
fn a_worker_that_gives_no_reason_has_an_unknown_error() {
    let expected = CommandError { kind: ErrorKind::Domain, message: "Unknown error".to_string() };
    assert_eq!(reply_failure(&doc("{\"success\": false}")), expected);
    assert_eq!(reply_failure(&doc("{\"error\": 5}")), expected);
    assert_eq!(reply_failure(&doc("{\"message\": \"not read here\"}")), expected);
    assert_eq!(acknowledged(&doc("{}")), Err(expected));
}

#[test]
fn device_queries_are_shaped_and_read() {
    assert_eq!(get_devices(), call(DB, &["--action", "devices"]));
    assert_eq!(scan_devices(), call("python/arp/device_scanner.py", &["--scan"]));
    assert_eq!(
        set_device_monitoring("d1", true),
        call(DB, &["--action", "update-device", "--device", "d1", "--monitored", "1"])
    );
    assert_eq!(
        set_device_monitoring("d1", false),
        call(DB, &["--action", "update-device", "--device", "d1", "--monitored", "0"])
    );
    let reply = doc("{\"success\": true, \"devices\": [{\"id\": \"a\", \"mac\": \"m\", \"ip\": \"i\"}, {\"id\": \"b\"}]}");
    let devices = devices_reply(&reply).unwrap();
    assert_eq!(devices.len(), 1);
    assert_eq!(devices[0].id, "a");
    let error = devices_reply(&doc("{\"success\": false, \"error\": \"no database\", \"devices\": []}")).unwrap_err();
    assert_eq!(error, CommandError { kind: ErrorKind::Domain, message: "no database".to_string() });
}

#[test]
fn traffic_queries_carry_the_limit_in_decimal() {
    assert_eq!(get_traffic(None, None, None), call(DB, &["--action", "traffic", "--limit", "100"]));
    assert_eq!(
        get_traffic(Some(25), Some(50), None),
        call(DB, &["--action", "traffic", "--limit", "25"])
    );
    assert_eq!(
        get_traffic(Some(0), None, Some("d7")),
        call(DB, &["--action", "traffic", "--limit", "0", "--device", "d7"])
    );
    assert_eq!(
        get_traffic(Some(u32::MAX), None, Some("")),
        call(DB, &["--action", "traffic", "--limit", "4294967295", "--device", ""])
    );
    assert_eq!(search_traffic("cats & dogs"), call(DB, &["--action", "search", "--query", "cats & dogs"]));
    assert_eq!(get_traffic_details("t9"), call(DB, &["--action", "get-traffic", "--id", "t9"]));
}

#[test]
fn traffic_replies_are_read_by_kind() {
    let reply = doc(
        "{\"success\": true, \"traffic\": [{\"id\": \"a\", \"timestamp\": \"1\", \"duration\": 4}], \
         \"results\": [{\"id\": \"b\", \"timestamp\": \"2\", \"duration\": 4}]}",
    );
    let listed = traffic_reply(&reply).unwrap();
    assert_eq!(listed.len(), 1);
    assert_eq!((listed[0].id.as_str(), listed[0].duration), ("a", 4));
    let found = search_reply(&reply).unwrap();
    assert_eq!(found.len(), 1);
    assert_eq!((found[0].id.as_str(), found[0].duration), ("b", 4));
    let failed = doc("{\"success\": false, \"error\": \"locked\"}");
    assert_eq!(traffic_reply(&failed).unwrap_err().message, "locked");
    assert_eq!(search_reply(&failed).unwrap_err().message, "locked");
    assert_eq!(search_reply(&doc("{\"success\": true}")), Ok(vec![]));
}

#[test]
fn a_search_result_under_the_older_names_is_read_in_full() {
    let reply = doc(
        "{\"success\":true,\"results\":[{\"id\":\"t1\",\"timestamp\":\"T\",\"duration\":9,\"response_body_type\":\"json\"}]}",
    );
    let found = search_reply(&reply).unwrap();
    assert_eq!(found.len(), 1);
    assert_eq!(found[0].id, "t1");
    assert_eq!(found[0].timestamp, "T");
    assert_eq!(found[0].duration, 9);
    assert_eq!(found[0].content_type, Some("json".to_string()));
}

#[test]
fn the_details_of_an_entry_are_the_first_entry_of_the_reply() {
    let reply = doc(
        "{\"success\": true, \"traffic\": [{\"id\": \"bad\"}, {\"id\": \"a\", \"timestamp\": \"1\"}, \
         {\"id\": \"b\", \"timestamp\": \"2\"}]}",
    );
    assert_eq!(traffic_details_reply(&reply).unwrap().id, "a");
    let error = traffic_details_reply(&doc("{\"success\": true, \"traffic\": []}")).unwrap_err();
    assert_eq!(error, CommandError { kind: ErrorKind::NotFound, message: "Traffic entry not found".to_string() });
    let error = traffic_details_reply(&doc("{\"success\": true, \"traffic\": [{\"id\": \"x\"}]}")).unwrap_err();
    assert_eq!(error.kind, ErrorKind::NotFound);
    let error = traffic_details_reply(&doc("{\"error\": \"gone\"}")).unwrap_err();
    assert_eq!(error, CommandError { kind: ErrorKind::Domain, message: "gone".to_string() });
}

#[test]
fn alert_commands_are_shaped() {
    assert_eq!(get_alerts(), call(ALERTS, &["--action", "list"]));
    assert_eq!(mark_alert_read("a1"), call(ALERTS, &["--action", "acknowledge", "--id", "a1"]));
    assert_eq!(resolve_alert("a1"), call(ALERTS, &["--action", "acknowledge", "--id", "a1"]));
    assert_eq!(delete_alert("a1"), call(ALERTS, &["--action", "delete", "--id", "a1"]));
    assert_eq!(mark_all_alerts_read(), call(ALERTS, &["--action", "acknowledge-all"]));
}

#[test]
fn alerts_are_all_handed_on_unless_only_unread_ones_are_wanted() {
    let one = "{\"id\": \"ID\", \"timestamp\": \"t\", \"severity\": \"high\", \"category\": \"malware\", \"title\": \"Found\", \"acknowledged\": ACK}";
    let make = |id: &str, ack: &str| one.replace("ID", id).replace("ACK", ack);
    let reply = doc(&format!(
        "{{\"success\": true, \"alerts\": [{}, {}, {}, {}]}}",
        make("a", "true"),
        make("b", "false"),
        make("c", "true"),
        make("d", "false")
    ));
    let all = vec![alert("a", true), alert("b", false), alert("c", true), alert("d", false)];
    assert_eq!(alerts_reply(&reply, None), Ok(all.clone()));
    assert_eq!(alerts_reply(&reply, Some(false)), Ok(all.clone()));
    assert_eq!(alerts_reply(&reply, Some(true)), Ok(vec![alert("b", false), alert("d", false)]));
    assert_eq!(unread_alerts(all), vec![alert("b", false), alert("d", false)]);
    assert_eq!(unread_alerts(vec![alert("a", true)]), vec![]);
    assert_eq!(unread_alerts(vec![]), vec![]);
    let error = alerts_reply(&doc("{\"success\": false, \"error\": \"down\"}"), Some(true)).unwrap_err();
    assert_eq!(error.message, "down");
}

#[test]
fn stats_are_read_from_a_reply_that_succeeded() {
    assert_eq!(get_stats(), call(DB, &["--action", "stats"]));
    let reply = doc("{\"success\": true, \"stats\": {\"device_count\": 2, \"bytes_in\": 1, \"bytes_out\": 2}}");
    let stats = stats_reply(&reply).unwrap();
    assert_eq!(stats.total_devices, 2);
    assert_eq!(stats.total_bandwidth, 3);
    let reply = doc("{\"success\": false, \"error\": \"no database\", \"stats\": {\"device_count\": 2}}");
    assert_eq!(
        stats_reply(&reply),
        Err(CommandError { kind: ErrorKind::Domain, message: "no database".to_string() })
    );
    assert_eq!(stats_reply(&doc("{\"stats\": {\"device_count\": 2}}")).unwrap_err().message, "Unknown error");
}

#[test]
fn blocking_queries_are_shaped() {
    assert_eq!(
        toggle_category("gambling", true),
        call(BLOCKER, &["--action", "block-category", "--category", "gambling"])
    );
    assert_eq!(
        toggle_category("gambling", false),
        call(BLOCKER, &["--action", "unblock-category", "--category", "gambling"])
    );
    assert_eq!(get_block_config(), call(BLOCKER, &["--action", "config"]));
    assert_eq!(check_domain("a.example"), call(BLOCKER, &["--action", "check", "--domain", "a.example"]));
}

#[test]
fn a_stealth_profile_is_applied_to_the_configured_interface() {
    let mut settings = default_settings();
    assert_eq!(
        change_stealth_profile("smart_tv", &settings),
        call("python/stealth/mac_changer.py", &["--interface", "Wi-Fi", "--profile", "smart_tv"])
    );
    settings.network_interface = Some("eth1".to_string());
    assert_eq!(
        change_stealth_profile("smart_tv", &settings),
        call("python/stealth/mac_changer.py", &["--interface", "eth1", "--profile", "smart_tv"])
    );
    assert_eq!(get_stealth_profiles(), call("python/stealth/mac_changer.py", &["--list-profiles"]));
}

#[test]
fn an_applied_profile_is_kept_in_the_session_and_in_the_settings() {
    let mut state: AppState<u32> = AppState::new();
    state.python_processes.push(4);
    let mut settings = default_settings();
    settings.theme = "light".to_string();
    assert_eq!(stealth_profile_applied(&mut state, "smart_tv", &doc("{\"success\": true}")), Ok(()));
    assert_eq!(state.current_profile, "smart_tv");
    assert_eq!(state.python_processes, vec![4]);
    assert!(!state.is_monitoring);
    let saved = with_device_profile(settings.clone(), "smart_tv");
    settings.device_profile = "smart_tv".to_string();
    assert_eq!(saved, settings);
}

#[test]
fn a_refused_profile_changes_nothing_and_reports_the_message() {
    let mut state: AppState<u32> = AppState::new();
    let reply = doc("{\"success\": false, \"message\": \"needs admin\", \"error\": \"E5\"}");
    let error = stealth_profile_applied(&mut state, "smart_tv", &reply).unwrap_err();
    assert_eq!(error, CommandError { kind: ErrorKind::Domain, message: "needs admin".to_string() });
    assert_eq!(state.current_profile, "hp_printer");
    let reply = doc("{\"success\": false, \"error\": \"E5\"}");
    let error = stealth_profile_applied(&mut state, "smart_tv", &reply).unwrap_err();
    assert_eq!(error.message, "E5");
    let error = stealth_profile_applied(&mut state, "smart_tv", &doc("{}")).unwrap_err();
    assert_eq!(error.message, "Unknown error");
}

#[test]
fn certificate_operations_are_shaped_and_read() {
    assert_eq!(
        generate_certificate("hp_printer"),
        call("python/https/cert_generator.py", &["--action", "generate", "--profile", "hp_printer"])
    );
    assert_eq!(
        certificate_reply(&doc("{\"success\": true, \"cert_path\": \"certs/my.crt\"}")),
        Ok("Certificate generated: certs/my.crt".to_string())
    );
    assert_eq!(
        certificate_reply(&doc("{\"success\": true}")),
        Ok("Certificate generated: certs/ca.crt".to_string())
    );
    let error = certificate_reply(&doc("{\"success\": false, \"error\": \"openssl missing\"}")).unwrap_err();
    assert_eq!(error.message, "openssl missing");
    assert_eq!(get_cert_url(), call("python/utils/network_utils.py", &["--action", "get-ip"]));
    assert_eq!(cert_url_reply(&doc("{\"ip\": \"10.0.0.5\"}")), "http://10.0.0.5:8888");
    assert_eq!(cert_url_reply(&doc("{\"success\": false}")), "http://192.168.1.1:8888");
    assert_eq!(cert_url_reply(&doc("{\"ip\": 7}")), "http://192.168.1.1:8888");
}

#[test]
fn export_cleanup_and_interfaces_are_shaped() {
    assert_eq!(
        export_data("csv", "C:/out/data.csv"),
        call(DB, &["--action", "export", "--format", "csv", "--output", "C:/out/data.csv"])
    );
    assert_eq!(cleanup_database(30), call(DB, &["--action", "cleanup", "--days", "30"]));
    assert_eq!(cleanup_database(0), call(DB, &["--action", "cleanup", "--days", "0"]));
    assert_eq!(
        get_network_interfaces(),
        call("python/utils/network_utils.py", &["--action", "list-interfaces"])
    );
}

#[test]
fn settings_default_where_no_file_is_found() {
    let defaults = Settings {
        theme: "dark".to_string(),
        stealth_enabled: true,
        device_profile: "hp_printer".to_string(),
        blocking_enabled: true,
        notifications_enabled: true,
        network_interface: None,
    };
    assert_eq!(default_settings(), defaults);
    assert_eq!(load_settings(SettingsFile::Absent), Ok(defaults.clone()));
    assert_eq!(get_settings(SettingsFile::Absent), Ok(defaults));
    assert_eq!(get_config_path(), "config");
    assert_eq!(settings_file_name(), "settings.json");
}

#[test]
fn stored_settings_are_loaded_as_they_were_stored() {
    let stored = Settings {
        theme: "light".to_string(),
        stealth_enabled: false,
        device_profile: "smart_tv".to_string(),
        blocking_enabled: false,
        notifications_enabled: true,
        network_interface: Some("eth0".to_string()),
    };
    assert_eq!(load_settings(SettingsFile::Stored(stored.clone())), Ok(stored.clone()));
    assert_eq!(get_settings(SettingsFile::Stored(stored.clone())), Ok(stored));
}

#[test]
fn a_settings_file_that_cannot_be_used_is_a_failure() {
    let error = load_settings(SettingsFile::Unreadable("permission denied".to_string())).unwrap_err();
    assert_eq!(error.kind, ErrorKind::ConfigRead);
    assert_eq!(error.message, "Failed to read settings: permission denied");
    let error = load_settings(SettingsFile::Malformed("expected value".to_string())).unwrap_err();
    assert_eq!(error.kind, ErrorKind::ConfigParse);
    assert_eq!(error.message, "Failed to parse settings: expected value");
}

#[test]
fn each_refused_step_has_its_kind_and_message() {
    let cases = [
        (Fault::RunScript, ErrorKind::Spawn, "Failed to run Python script: x"),
        (Fault::RunPython, ErrorKind::Spawn, "Failed to run Python: x"),
        (Fault::StartArpGateway, ErrorKind::Spawn, "Failed to start ARP gateway: x"),
        (Fault::StartHttpsProxy, ErrorKind::Spawn, "Failed to start HTTPS proxy: x"),
        (Fault::StartDnsCapture, ErrorKind::Spawn, "Failed to start DNS capture: x"),
        (Fault::StartCertServer, ErrorKind::Spawn, "Failed to start cert server: x"),
        (Fault::SerializeCommand, ErrorKind::Pipe, "Failed to serialize command: x"),
        (Fault::WriteToProcess, ErrorKind::Pipe, "Failed to write to process: x"),
        (Fault::Flush, ErrorKind::Pipe, "Failed to flush: x"),
        (Fault::ReadFromProcess, ErrorKind::Pipe, "Failed to read from process: x"),
        (Fault::ReadSettings, ErrorKind::ConfigRead, "Failed to read settings: x"),
        (Fault::ParseSettings, ErrorKind::ConfigParse, "Failed to parse settings: x"),
        (Fault::CreateConfigDir, ErrorKind::ConfigWrite, "Failed to create config dir: x"),
        (Fault::SerializeSettings, ErrorKind::ConfigWrite, "Failed to serialize settings: x"),
        (Fault::WriteSettings, ErrorKind::ConfigWrite, "Failed to write settings: x"),
    ];
    for (fault, kind, message) in cases {
        let error = io_failure(fault, "x");
        assert_eq!(error.kind, kind);
        assert_eq!(error.message, message);
        assert_eq!(error.to_string(), message);
    }
    assert_eq!(
        plain_failure(ErrorKind::Pipe, "Process has no stdin"),
        CommandError::new(ErrorKind::Pipe, "Process has no stdin".to_string())
    );
    assert_eq!(
        CommandError::with_detail(ErrorKind::Spawn, "a: ", "b"),
        CommandError { kind: ErrorKind::Spawn, message: "a: b".to_string() }
    );
}

#[test]
fn the_remaining_records_hold_what_is_put_in_them() {
    let rule = BlockRule {
        id: "r1".to_string(),
        rule_type: "domain".to_string(),
        value: "ads.example.com".to_string(),
        enabled: true,
        reason: None,
    };
    assert_eq!(rule.clone(), rule);
    let category = BlockCategory {
        id: "c1".to_string(),
        name: "Gambling".to_string(),
        enabled: false,
        severity: "high".to_string(),
    };
    assert_eq!(category.clone(), category);
    let hour = HourlyTraffic { hour: 23, requests: 5 };
    assert_eq!(hour, HourlyTraffic { hour: 23, requests: 5 });
}
