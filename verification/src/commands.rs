//! The operations that the control plane offers, and the records that they
//! hand to its callers.
//!
//! An operation on a worker has two halves. The first shapes the invocation
//! of the worker and bears the operation's name; it stands here. The caller
//! runs the worker and gives what it printed to `run_python_script`; the
//! second half, in `replies`, reads the reply that comes of it.

use crate::error::{failure, CommandError, CommandErrorView, ErrorKind};
use crate::python::{
    invocation, lemma_action_alone, lemma_action_with_one, lemma_action_with_two, opt_str_view,
    query_database, run_alert_command, run_blocking_command, run_stealth_command,
    script_invocation, Invocation,
};
use crate::settings::{load_settings, loaded, loaded_view, SettingsFile};
use crate::supervisor::{interface_of, monitoring_interface};
use crate::text::{decimal, decimal_string, opt_text, str_eq, texts, views};
use vstd::pervasive::unreached;
use vstd::prelude::*;

verus! {

/// A device seen on the network.
#[derive(Debug, Clone, PartialEq, Eq)]
pub struct Device {
    pub id: String,
    pub mac: String,
    pub ip: String,
    pub hostname: Option<String>,
    pub vendor: Option<String>,
    pub device_type: String,
    pub first_seen: String,
    pub last_seen: String,
    pub is_online: bool,
    pub is_monitored: bool,
    pub has_certificate: bool,
    pub total_bytes: u64,
    pub blocked_requests: u32,
    pub alerts: u32,
}

/// A device, with its texts as plain sequences.
pub struct DeviceView {
    pub id: Seq<char>,
    pub mac: Seq<char>,
    pub ip: Seq<char>,
    pub hostname: Option<Seq<char>>,
    pub vendor: Option<Seq<char>>,
    pub device_type: Seq<char>,
    pub first_seen: Seq<char>,
    pub last_seen: Seq<char>,
    pub is_online: bool,
    pub is_monitored: bool,
    pub has_certificate: bool,
    pub total_bytes: u64,
    pub blocked_requests: u32,
    pub alerts: u32,
}

impl View for Device {
    type V = DeviceView;

    open spec fn view(&self) -> DeviceView {
        DeviceView {
            id: self.id@,
            mac: self.mac@,
            ip: self.ip@,
            hostname: opt_text(self.hostname),
            vendor: opt_text(self.vendor),
            device_type: self.device_type@,
            first_seen: self.first_seen@,
            last_seen: self.last_seen@,
            is_online: self.is_online,
            is_monitored: self.is_monitored,
            has_certificate: self.has_certificate,
            total_bytes: self.total_bytes,
            blocked_requests: self.blocked_requests,
            alerts: self.alerts,
        }
    }
}

/// One request that passed through the proxy.
#[derive(Debug, Clone, PartialEq, Eq)]
pub struct TrafficEntry {
    pub id: String,
    pub timestamp: String,
    pub device_id: Option<String>,
    pub device_ip: String,
    pub method: String,
    pub url: String,
    pub host: String,
    pub path: Option<String>,
    pub status_code: Option<u16>,
    pub content_type: Option<String>,
    pub request_size: u64,
    pub response_size: u64,
    pub duration: u32,
    pub is_blocked: bool,
    pub has_alert: bool,
    pub category: Option<String>,
}

/// A traffic entry, with its texts as plain sequences.
pub struct TrafficEntryView {
    pub id: Seq<char>,
    pub timestamp: Seq<char>,
    pub device_id: Option<Seq<char>>,
    pub device_ip: Seq<char>,
    pub method: Seq<char>,
    pub url: Seq<char>,
    pub host: Seq<char>,
    pub path: Option<Seq<char>>,
    pub status_code: Option<u16>,
    pub content_type: Option<Seq<char>>,
    pub request_size: u64,
    pub response_size: u64,
    pub duration: u32,
    pub is_blocked: bool,
    pub has_alert: bool,
    pub category: Option<Seq<char>>,
}

impl View for TrafficEntry {
    type V = TrafficEntryView;

    open spec fn view(&self) -> TrafficEntryView {
        TrafficEntryView {
            id: self.id@,
            timestamp: self.timestamp@,
            device_id: opt_text(self.device_id),
            device_ip: self.device_ip@,
            method: self.method@,
            url: self.url@,
            host: self.host@,
            path: opt_text(self.path),
            status_code: self.status_code,
            content_type: opt_text(self.content_type),
            request_size: self.request_size,
            response_size: self.response_size,
            duration: self.duration,
            is_blocked: self.is_blocked,
            has_alert: self.has_alert,
            category: opt_text(self.category),
        }
    }
}

/// Something that the alert worker found worth reporting.
#[derive(Debug, Clone, PartialEq, Eq)]
pub struct Alert {
    pub id: String,
    pub timestamp: String,
    pub device_id: Option<String>,
    pub severity: String,
    pub category: String,
    pub title: String,
    pub description: String,
    pub url: Option<String>,
    pub matched_keywords: Option<Vec<String>>,
    pub is_read: bool,
    pub is_resolved: bool,
}

/// An alert, with its texts as plain sequences.
pub struct AlertView {
    pub id: Seq<char>,
    pub timestamp: Seq<char>,
    pub device_id: Option<Seq<char>>,
    pub severity: Seq<char>,
    pub category: Seq<char>,
    pub title: Seq<char>,
    pub description: Seq<char>,
    pub url: Option<Seq<char>>,
    pub matched_keywords: Option<Seq<Seq<char>>>,
    pub is_read: bool,
    pub is_resolved: bool,
}

impl View for Alert {
    type V = AlertView;

    open spec fn view(&self) -> AlertView {
        AlertView {
            id: self.id@,
            timestamp: self.timestamp@,
            device_id: opt_text(self.device_id),
            severity: self.severity@,
            category: self.category@,
            title: self.title@,
            description: self.description@,
            url: opt_text(self.url),
            matched_keywords: match self.matched_keywords {
                Some(words) => Some(texts(words@)),
                None => None,
            },
            is_read: self.is_read,
            is_resolved: self.is_resolved,
        }
    }
}

/// Whether monitoring runs, and since when.
#[derive(Debug, Clone, PartialEq, Eq)]
pub struct MonitoringStatus {
    pub is_running: bool,
    pub arp_spoofing: bool,
    pub https_proxy: bool,
    pub dns_capture: bool,
    pub stealth_mode: bool,
    pub current_profile: String,
    pub uptime: u64,
    pub errors: Vec<String>,
}

/// A monitoring status, with its texts as plain sequences.
pub struct MonitoringStatusView {
    pub is_running: bool,
    pub arp_spoofing: bool,
    pub https_proxy: bool,
    pub dns_capture: bool,
    pub stealth_mode: bool,
    pub current_profile: Seq<char>,
    pub uptime: u64,
    pub errors: Seq<Seq<char>>,
}

impl View for MonitoringStatus {
    type V = MonitoringStatusView;

    open spec fn view(&self) -> MonitoringStatusView {
        MonitoringStatusView {
            is_running: self.is_running,
            arp_spoofing: self.arp_spoofing,
            https_proxy: self.https_proxy,
            dns_capture: self.dns_capture,
            stealth_mode: self.stealth_mode,
            current_profile: self.current_profile@,
            uptime: self.uptime,
            errors: texts(self.errors@),
        }
    }
}

/// How often a domain was asked for.
#[derive(Debug, Clone, PartialEq, Eq)]
pub struct TopDomain {
    pub domain: String,
    pub count: u64,
}

/// A domain with its count, the name as a plain sequence.
pub struct TopDomainView {
    pub domain: Seq<char>,
    pub count: u64,
}

impl View for TopDomain {
    type V = TopDomainView;

    open spec fn view(&self) -> TopDomainView {
        TopDomainView { domain: self.domain@, count: self.count }
    }
}

/// The requests of one hour of the day.
#[derive(Debug, Clone, Copy, PartialEq, Eq)]
pub struct HourlyTraffic {
    pub hour: u32,
    pub requests: u64,
}

/// The figures of the dashboard.
#[derive(Debug, Clone, PartialEq, Eq)]
pub struct DashboardStats {
    pub total_devices: u32,
    pub online_devices: u32,
    pub total_requests: u64,
    pub blocked_requests: u64,
    pub total_alerts: u32,
    pub unresolved_alerts: u32,
    pub total_bandwidth: u64,
    pub top_domains: Vec<TopDomain>,
    pub traffic_by_hour: Vec<HourlyTraffic>,
}

/// The figures of the dashboard, with its lists as plain sequences.
pub struct DashboardStatsView {
    pub total_devices: u32,
    pub online_devices: u32,
    pub total_requests: u64,
    pub blocked_requests: u64,
    pub total_alerts: u32,
    pub unresolved_alerts: u32,
    pub total_bandwidth: u64,
    pub top_domains: Seq<TopDomainView>,
    pub traffic_by_hour: Seq<HourlyTraffic>,
}

impl View for DashboardStats {
    type V = DashboardStatsView;

    open spec fn view(&self) -> DashboardStatsView {
        DashboardStatsView {
            total_devices: self.total_devices,
            online_devices: self.online_devices,
            total_requests: self.total_requests,
            blocked_requests: self.blocked_requests,
            total_alerts: self.total_alerts,
            unresolved_alerts: self.unresolved_alerts,
            total_bandwidth: self.total_bandwidth,
            top_domains: views(self.top_domains@),
            traffic_by_hour: self.traffic_by_hour@,
        }
    }
}

/// What the user has chosen.
#[derive(Debug, Clone, PartialEq, Eq)]
pub struct Settings {
    pub theme: String,
    pub stealth_enabled: bool,
    pub device_profile: String,
    pub blocking_enabled: bool,
    pub notifications_enabled: bool,
    pub network_interface: Option<String>,
}

/// Settings, with their texts as plain sequences.
pub struct SettingsView {
    pub theme: Seq<char>,
    pub stealth_enabled: bool,
    pub device_profile: Seq<char>,
    pub blocking_enabled: bool,
    pub notifications_enabled: bool,
    pub network_interface: Option<Seq<char>>,
}

impl View for Settings {
    type V = SettingsView;

    open spec fn view(&self) -> SettingsView {
        SettingsView {
            theme: self.theme@,
            stealth_enabled: self.stealth_enabled,
            device_profile: self.device_profile@,
            blocking_enabled: self.blocking_enabled,
            notifications_enabled: self.notifications_enabled,
            network_interface: opt_text(self.network_interface),
        }
    }
}

/// One rule of the blocking worker.
#[derive(Debug, Clone, PartialEq, Eq)]
pub struct BlockRule {
    pub id: String,
    pub rule_type: String,
    pub value: String,
    pub enabled: bool,
    pub reason: Option<String>,
}

/// One category that the blocking worker can block as a whole.
#[derive(Debug, Clone, PartialEq, Eq)]
pub struct BlockCategory {
    pub id: String,
    pub name: String,
    pub enabled: bool,
    pub severity: String,
}

/// Asks the storage worker for the devices. The reply is read by
/// `devices_reply`.
pub fn get_devices() -> (r: Invocation)
    ensures
        r@ == invocation("python/database/db_manager.py"@, seq!["--action"@, "devices"@]),
{
    proof {
        lemma_action_alone("devices"@);
    }
    query_database("devices", &[])
}

/// Asks the scanner to look for devices. The reply is read by
/// `devices_reply`.
pub fn scan_devices() -> (r: Invocation)
    ensures
        r@ == invocation("python/arp/device_scanner.py"@, seq!["--scan"@]),
{
    let args = ["--scan"];
    let r = script_invocation("python/arp/device_scanner.py", &args);
    assert(r@.args =~= seq!["--scan"@]);
    r
}

/// Switches the monitoring of one device on or off. The reply is read by
/// `acknowledged`.
pub fn set_device_monitoring(device_id: &str, enabled: bool) -> (r: Invocation)
    ensures
        r@ == invocation(
            "python/database/db_manager.py"@,
            seq![
                "--action"@,
                "update-device"@,
                "--device"@,
                device_id@,
                "--monitored"@,
                if enabled {
                    "1"@
                } else {
                    "0"@
                },
            ],
        ),
{
    let enabled_str = if enabled {
        "1"
    } else {
        "0"
    };
    let args = ["--action", "update-device", "--device", device_id, "--monitored", enabled_str];
    let r = script_invocation("python/database/db_manager.py", &args);
    assert(r@.args =~= seq![
        "--action"@,
        "update-device"@,
        "--device"@,
        device_id@,
        "--monitored"@,
        enabled_str@,
    ]);
    r
}

/// How many entries are asked for where the caller names no limit.
pub open spec fn limit_or_default(limit: Option<u32>) -> u32 {
    match limit {
        Some(limit) => limit,
        None => 100,
    }
}

/// The arguments of a query for traffic: the limit, and the device where one
/// is named.
pub open spec fn traffic_args(limit: Option<u32>, device_id: Option<Seq<char>>) -> Seq<Seq<char>> {
    match device_id {
        Some(device) => seq![
            "--action"@,
            "traffic"@,
            "--limit"@,
            decimal(limit_or_default(limit) as nat),
            "--device"@,
            device,
        ],
        None => seq!["--action"@, "traffic"@, "--limit"@, decimal(limit_or_default(limit) as nat)],
    }
}

/// Asks the storage worker for traffic: at most `limit` entries, or a
/// hundred, of `device_id` or of all devices. The offset is accepted and not
/// passed on. The reply is read by `traffic_reply`.
pub fn get_traffic(limit: Option<u32>, _offset: Option<u32>, device_id: Option<&str>) -> (r:
    Invocation)
    ensures
        r@ == invocation(
            "python/database/db_manager.py"@,
            traffic_args(limit, opt_str_view(device_id)),
        ),
{
    let limit_text = decimal_string(
        match limit {
            Some(limit) => limit,
            None => 100,
        },
    );
    let limit_str = limit_text.as_str();
    match device_id {
        Some(device) => {
            let pairs = [("--limit", limit_str), ("--device", device)];
            proof {
                assert(pairs@ =~= seq![("--limit", limit_str), ("--device", device)]);
                lemma_action_with_two("traffic"@, ("--limit", limit_str), ("--device", device));
            }
            query_database("traffic", &pairs)
        },
        None => {
            let pairs = [("--limit", limit_str)];
            proof {
                assert(pairs@ =~= seq![("--limit", limit_str)]);
                lemma_action_with_one("traffic"@, ("--limit", limit_str));
            }
            query_database("traffic", &pairs)
        },
    }
}

/// Asks the storage worker for the traffic that matches `query`. The reply
/// is read by `search_reply`.
pub fn search_traffic(query: &str) -> (r: Invocation)
    ensures
        r@ == invocation(
            "python/database/db_manager.py"@,
            seq!["--action"@, "search"@, "--query"@, query@],
        ),
{
    let pairs = [("--query", query)];
    proof {
        assert(pairs@ =~= seq![("--query", query)]);
        lemma_action_with_one("search"@, ("--query", query));
    }
    query_database("search", &pairs)
}

/// Asks the storage worker for one traffic entry. The reply is read by
/// `traffic_details_reply`.
pub fn get_traffic_details(entry_id: &str) -> (r: Invocation)
    ensures
        r@ == invocation(
            "python/database/db_manager.py"@,
            seq!["--action"@, "get-traffic"@, "--id"@, entry_id@],
        ),
{
    let args = ["--action", "get-traffic", "--id", entry_id];
    let r = script_invocation("python/database/db_manager.py", &args);
    assert(r@.args =~= seq!["--action"@, "get-traffic"@, "--id"@, entry_id@]);
    r
}

/// Asks the alert worker for the alerts. The reply is read by
/// `alerts_reply`, which is told whether only unread alerts are wanted.
pub fn get_alerts() -> (r: Invocation)
    ensures
        r@ == invocation("python/alerts/alert_engine.py"@, seq!["--action"@, "list"@]),
{
    proof {
        lemma_action_alone("list"@);
    }
    run_alert_command("list", &[])
}

/// Marks one alert as read. The reply is read by `acknowledged`.
pub fn mark_alert_read(alert_id: &str) -> (r: Invocation)
    ensures
        r@ == invocation(
            "python/alerts/alert_engine.py"@,
            seq!["--action"@, "acknowledge"@, "--id"@, alert_id@],
        ),
{
    let pairs = [("--id", alert_id)];
    proof {
        assert(pairs@ =~= seq![("--id", alert_id)]);
        lemma_action_with_one("acknowledge"@, ("--id", alert_id));
    }
    run_alert_command("acknowledge", &pairs)
}

/// Resolves one alert, which to the alert worker is the same as reading it.
/// The reply is read by `acknowledged`.
pub fn resolve_alert(alert_id: &str) -> (r: Invocation)
    ensures
        r@ == invocation(
            "python/alerts/alert_engine.py"@,
            seq!["--action"@, "acknowledge"@, "--id"@, alert_id@],
        ),
{
    mark_alert_read(alert_id)
}

/// Deletes one alert. The reply is read by `acknowledged`.
pub fn delete_alert(alert_id: &str) -> (r: Invocation)
    ensures
        r@ == invocation(
            "python/alerts/alert_engine.py"@,
            seq!["--action"@, "delete"@, "--id"@, alert_id@],
        ),
{
    let pairs = [("--id", alert_id)];
    proof {
        assert(pairs@ =~= seq![("--id", alert_id)]);
        lemma_action_with_one("delete"@, ("--id", alert_id));
    }
    run_alert_command("delete", &pairs)
}

/// Marks every alert as read. The reply is read by `acknowledged`.
pub fn mark_all_alerts_read() -> (r: Invocation)
    ensures
        r@ == invocation("python/alerts/alert_engine.py"@, seq!["--action"@, "acknowledge-all"@]),
{
    proof {
        lemma_action_alone("acknowledge-all"@);
    }
    run_alert_command("acknowledge-all", &[])
}

/// Asks the storage worker for the figures of the dashboard. The reply is
/// read by `stats_reply`.
pub fn get_stats() -> (r: Invocation)
    ensures
        r@ == invocation("python/database/db_manager.py"@, seq!["--action"@, "stats"@]),
{
    proof {
        lemma_action_alone("stats"@);
    }
    query_database("stats", &[])
}

/// The flag under which the blocking worker takes the value of a rule of
/// `rule_type`: a domain, a category or a keyword. Nothing for any other
/// type.
pub open spec fn block_rule_flag(rule_type: Seq<char>) -> Option<Seq<char>> {
    if rule_type == "domain"@ {
        Some("--domain"@)
    } else if rule_type == "category"@ {
        Some("--category"@)
    } else if rule_type == "keyword"@ {
        Some("--keyword"@)
    } else {
        None
    }
}

/// The action of the blocking worker that adds a rule of `rule_type`.
pub open spec fn add_rule_action(rule_type: Seq<char>) -> Option<Seq<char>> {
    if rule_type == "domain"@ {
        Some("block"@)
    } else if rule_type == "category"@ {
        Some("block-category"@)
    } else if rule_type == "keyword"@ {
        Some("add-keyword"@)
    } else {
        None
    }
}

/// The action of the blocking worker that removes a rule of `rule_type`.
pub open spec fn remove_rule_action(rule_type: Seq<char>) -> Option<Seq<char>> {
    if rule_type == "domain"@ {
        Some("unblock"@)
    } else if rule_type == "category"@ {
        Some("unblock-category"@)
    } else if rule_type == "keyword"@ {
        Some("remove-keyword"@)
    } else {
        None
    }
}

/// The failure for a rule of a type that the blocking worker does not know.
pub open spec fn unknown_rule_type(rule_type: Seq<char>) -> CommandErrorView {
    failure(ErrorKind::UnsupportedRuleType, "Unknown rule type: "@ + rule_type)
}

/// Adds a block rule for a domain, a category or a keyword. A rule of any
/// other type is refused, and no worker is invoked for it. The reply is read
/// by `acknowledged`.
pub fn add_block_rule(rule_type: &str, value: &str) -> (r: Result<Invocation, CommandError>)
    ensures
        match r {
            Ok(inv) => add_rule_action(rule_type@) is Some && inv@ == invocation(
                "python/blocking/blocker.py"@,
                seq![
                    "--action"@,
                    add_rule_action(rule_type@)->0,
                    block_rule_flag(rule_type@)->0,
                    value@,
                ],
            ),
            Err(e) => add_rule_action(rule_type@) is None && e@ == unknown_rule_type(rule_type@),
        },
{
    let (action, flag) = if str_eq(rule_type, "domain") {
        ("block", "--domain")
    } else if str_eq(rule_type, "category") {
        ("block-category", "--category")
    } else if str_eq(rule_type, "keyword") {
        ("add-keyword", "--keyword")
    } else {
        return Err(
            CommandError::with_detail(
                ErrorKind::UnsupportedRuleType,
                "Unknown rule type: ",
                rule_type,
            ),
        );
    };
    let pairs = [(flag, value)];
    proof {
        assert(pairs@ =~= seq![(flag, value)]);
        lemma_action_with_one(action@, (flag, value));
    }
    Ok(run_blocking_command(action, &pairs))
}

/// Removes a block rule for a domain, a category or a keyword. A rule of any
/// other type is refused, and no worker is invoked for it. The reply is read
/// by `acknowledged`.
pub fn remove_block_rule(rule_type: &str, value: &str) -> (r: Result<Invocation, CommandError>)
    ensures
        match r {
            Ok(inv) => remove_rule_action(rule_type@) is Some && inv@ == invocation(
                "python/blocking/blocker.py"@,
                seq![
                    "--action"@,
                    remove_rule_action(rule_type@)->0,
                    block_rule_flag(rule_type@)->0,
                    value@,
                ],
            ),
            Err(e) => remove_rule_action(rule_type@) is None && e@ == unknown_rule_type(
                rule_type@,
            ),
        },
{
    let (action, flag) = if str_eq(rule_type, "domain") {
        ("unblock", "--domain")
    } else if str_eq(rule_type, "category") {
        ("unblock-category", "--category")
    } else if str_eq(rule_type, "keyword") {
        ("remove-keyword", "--keyword")
    } else {
        return Err(
            CommandError::with_detail(
                ErrorKind::UnsupportedRuleType,
                "Unknown rule type: ",
                rule_type,
            ),
        );
    };
    let pairs = [(flag, value)];
    proof {
        assert(pairs@ =~= seq![(flag, value)]);
        lemma_action_with_one(action@, (flag, value));
    }
    Ok(run_blocking_command(action, &pairs))
}

/// Blocks or unblocks a whole category. The reply is read by
/// `acknowledged`.
pub fn toggle_category(category_id: &str, enabled: bool) -> (r: Invocation)
    ensures
        r@ == invocation(
            "python/blocking/blocker.py"@,
            seq![
                "--action"@,
                if enabled {
                    "block-category"@
                } else {
                    "unblock-category"@
                },
                "--category"@,
                category_id@,
            ],
        ),
{
    let action = if enabled {
        "block-category"
    } else {
        "unblock-category"
    };
    let pairs = [("--category", category_id)];
    proof {
        assert(pairs@ =~= seq![("--category", category_id)]);
        lemma_action_with_one(action@, ("--category", category_id));
    }
    run_blocking_command(action, &pairs)
}

/// Asks the blocking worker for its configuration. The reply is handed on
/// as it is.
pub fn get_block_config() -> (r: Invocation)
    ensures
        r@ == invocation("python/blocking/blocker.py"@, seq!["--action"@, "config"@]),
{
    proof {
        lemma_action_alone("config"@);
    }
    run_blocking_command("config", &[])
}

/// Asks the blocking worker whether it blocks `domain`. The reply is handed
/// on as it is.
pub fn check_domain(domain: &str) -> (r: Invocation)
    ensures
        r@ == invocation(
            "python/blocking/blocker.py"@,
            seq!["--action"@, "check"@, "--domain"@, domain@],
        ),
{
    let pairs = [("--domain", domain)];
    proof {
        assert(pairs@ =~= seq![("--domain", domain)]);
        lemma_action_with_one("check"@, ("--domain", domain));
    }
    run_blocking_command("check", &pairs)
}

/// Has the stealth worker apply a profile to the interface that the
/// settings name. The reply is read by `stealth_profile_applied`.
pub fn change_stealth_profile(profile_id: &str, settings: &Settings) -> (r: Invocation)
    ensures
        r@ == invocation(
            "python/stealth/mac_changer.py"@,
            seq!["--interface"@, interface_of(settings@), "--profile"@, profile_id@],
        ),
{
    let interface = monitoring_interface(settings);
    match run_stealth_command("apply", interface.as_str(), Some(profile_id)) {
        Ok(inv) => {
            assert(inv@.args =~= seq![
                "--interface"@,
                interface_of(settings@),
                "--profile"@,
                profile_id@,
            ]);
            inv
        },
        Err(_) => unreached(),
    }
}

/// Asks the stealth worker for the profiles that it knows. The reply is
/// handed on as it is.
pub fn get_stealth_profiles() -> (r: Invocation)
    ensures
        r@ == invocation("python/stealth/mac_changer.py"@, seq!["--list-profiles"@]),
{
    let args = ["--list-profiles"];
    let r = script_invocation("python/stealth/mac_changer.py", &args);
    assert(r@.args =~= seq!["--list-profiles"@]);
    r
}

/// Has a certificate generated for `profile`. The reply is read by
/// `certificate_reply`.
pub fn generate_certificate(profile: &str) -> (r: Invocation)
    ensures
        r@ == invocation(
            "python/https/cert_generator.py"@,
            seq!["--action"@, "generate"@, "--profile"@, profile@],
        ),
{
    let args = ["--action", "generate", "--profile", profile];
    let r = script_invocation("python/https/cert_generator.py", &args);
    assert(r@.args =~= seq!["--action"@, "generate"@, "--profile"@, profile@]);
    r
}

/// Asks for the address of this host. The reply is read by
/// `cert_url_reply`.
pub fn get_cert_url() -> (r: Invocation)
    ensures
        r@ == invocation("python/utils/network_utils.py"@, seq!["--action"@, "get-ip"@]),
{
    let args = ["--action", "get-ip"];
    let r = script_invocation("python/utils/network_utils.py", &args);
    assert(r@.args =~= seq!["--action"@, "get-ip"@]);
    r
}

/// Has the storage worker write its data to `path` in `format`. The reply
/// is read by `acknowledged`.
pub fn export_data(format: &str, path: &str) -> (r: Invocation)
    ensures
        r@ == invocation(
            "python/database/db_manager.py"@,
            seq!["--action"@, "export"@, "--format"@, format@, "--output"@, path@],
        ),
{
    let args = ["--action", "export", "--format", format, "--output", path];
    let r = script_invocation("python/database/db_manager.py", &args);
    assert(r@.args =~= seq!["--action"@, "export"@, "--format"@, format@, "--output"@, path@]);
    r
}

/// Asks for the network interfaces of this host. The reply is handed on as
/// it is.
pub fn get_network_interfaces() -> (r: Invocation)
    ensures
        r@ == invocation("python/utils/network_utils.py"@, seq!["--action"@, "list-interfaces"@]),
{
    let args = ["--action", "list-interfaces"];
    let r = script_invocation("python/utils/network_utils.py", &args);
    assert(r@.args =~= seq!["--action"@, "list-interfaces"@]);
    r
}

/// Has the storage worker drop what is older than `days` days. The reply is
/// handed on as it is.
pub fn cleanup_database(days: u32) -> (r: Invocation)
    ensures
        r@ == invocation(
            "python/database/db_manager.py"@,
            seq!["--action"@, "cleanup"@, "--days"@, decimal(days as nat)],
        ),
{
    let days_text = decimal_string(days);
    let args = ["--action", "cleanup", "--days", days_text.as_str()];
    let r = script_invocation("python/database/db_manager.py", &args);
    assert(r@.args =~= seq!["--action"@, "cleanup"@, "--days"@, decimal(days as nat)]);
    r
}

/// The settings, for whoever asks.
pub fn get_settings(file: SettingsFile) -> (r: Result<Settings, CommandError>)
    ensures
        loaded_view(r) == loaded(file@),
{
    load_settings(file)
}

} // verus!
