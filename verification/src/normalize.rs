//! From what a worker reports to the records of this library.
//!
//! Workers name their fields as they please and change the names over time.
//! Here a field that has had two names is read under the current one first
//! and under the older one where the current one is not there, and a field
//! that is not there at all gets its default. A record without a field that it
//! must have is left out, and the rest of the batch stays.

use crate::commands::{
    Alert, AlertView, DashboardStats, DashboardStatsView, Device, DeviceView, HourlyTraffic,
    TopDomain, TopDomainView, TrafficEntry, TrafficEntryView,
};
use crate::json::{
    aliased_count_or_zero, aliased_text, count_member, count_of, count_or_zero,
    count_or_zero_member, first_present, flag_or, flag_or_default, items_of, json_members,
    json_model, map_entries, members_of, models, text_member, text_of, text_or, text_or_default,
    value_get, JsonModel,
};
use crate::text::{texts, views};
use serde_json::Value;
use vstd::prelude::*;

verus! {

/// The low 32 bits of a count.
pub open spec fn low32(n: u64) -> u32 {
    (n % 0x1_0000_0000) as u32
}

/// The low 16 bits of a count.
pub open spec fn low16(n: u64) -> u16 {
    (n % 0x1_0000) as u16
}

/// The sum of two counts, or the largest count where the sum is beyond it.
pub open spec fn capped_sum(a: u64, b: u64) -> u64 {
    if a + b > u64::MAX {
        u64::MAX
    } else {
        (a + b) as u64
    }
}

fn to_u32(n: u64) -> (r: u32)
    ensures
        r == low32(n),
{
    (n % 0x1_0000_0000) as u32
}

fn to_u16(n: u64) -> (r: u16)
    ensures
        r == low16(n),
{
    (n % 0x1_0000) as u16
}

fn add_capped(a: u64, b: u64) -> (r: u64)
    ensures
        r == capped_sum(a, b),
{
    if a > u64::MAX - b {
        u64::MAX
    } else {
        a + b
    }
}

/// The object that holds the figures: the member `stats` of the reply, or the
/// reply itself where it has none.
pub open spec fn stats_source(reply: JsonModel) -> JsonModel {
    match reply.member("stats"@) {
        Some(stats) => stats,
        None => reply,
    }
}

/// Whether `top` lists the members of the object `found`, each once and in
/// any order, as a domain with its count; a member that is no count counts as
/// zero. Where `found` is no object, the list is empty.
pub open spec fn lists_domains(top: Seq<TopDomainView>, found: Option<JsonModel>) -> bool {
    match members_of(found) {
        Some(members) => {
            &&& forall|i: int|
                0 <= i < top.len() ==> members.dom().contains((#[trigger] top[i]).domain)
                    && top[i].count == count_or_zero(Some(members[top[i].domain]))
            &&& forall|i: int, j: int|
                0 <= i < j < top.len() ==> (#[trigger] top[i]).domain != (#[trigger] top[j]).domain
            &&& forall|key: Seq<char>| #[trigger]
                members.dom().contains(key) ==> exists|i: int|
                    0 <= i < top.len() && (#[trigger] top[i]).domain == key
        },
        None => top.len() == 0,
    }
}

/// The figures that a reply of the storage worker holds, beside the list of
/// domains `top`. A figure that the reply lacks is zero; the bandwidth is the
/// sum of what came in and what went out, capped at the largest count.
pub open spec fn stats_of(reply: JsonModel, top: Seq<TopDomainView>) -> DashboardStatsView {
    let stats = stats_source(reply);
    DashboardStatsView {
        total_devices: low32(count_or_zero(stats.member("device_count"@))),
        online_devices: low32(count_or_zero(stats.member("online_devices"@))),
        total_requests: count_or_zero(stats.member("traffic_count"@)),
        blocked_requests: count_or_zero(stats.member("blocked_count"@)),
        total_alerts: low32(count_or_zero(stats.member("alert_count"@))),
        unresolved_alerts: low32(count_or_zero(stats.member("unresolved_alerts"@))),
        total_bandwidth: capped_sum(
            count_or_zero(stats.member("bytes_in"@)),
            count_or_zero(stats.member("bytes_out"@)),
        ),
        top_domains: top,
        traffic_by_hour: Seq::empty(),
    }
}

/// Reads the domains that were asked for most, with their counts, from the
/// member `top_domains` of `stats`.
pub fn parse_top_domains(stats: &Value) -> (r: Vec<TopDomain>)
    ensures
        lists_domains(views(r@), json_model(*stats).member("top_domains"@)),
{
    let mut out: Vec<TopDomain> = Vec::new();
    let found = match value_get(stats, "top_domains") {
        Some(found) => found,
        None => {
            return out;
        },
    };
    let map = match found.as_object() {
        Some(map) => map,
        None => {
            return out;
        },
    };
    let entries = map_entries(map);
    let mut i: usize = 0;
    while i < entries.len()
        invariant
            i <= entries.len(),
            out.len() == i,
            forall|k: int|
                0 <= k < i ==> (#[trigger] out@[k]).domain@ == entries@[k].0@ && out@[k].count
                    == count_or_zero(Some(json_model(*entries@[k].1))),
        decreases entries.len() - i,
    {
        let entry = entries[i];
        let count = match entry.1.as_u64() {
            Some(count) => count,
            None => 0,
        };
        out.push(TopDomain { domain: entry.0.clone(), count });
        i += 1;
    }
    proof {
        let top = views(out@);
        let members = json_members(*map);
        assert forall|k: int| 0 <= k < top.len() implies members.dom().contains(
            (#[trigger] top[k]).domain,
        ) && top[k].count == count_or_zero(Some(members[top[k].domain])) by {
            assert(out@[k].domain@ == entries@[k].0@);
        }
        assert forall|a: int, b: int| 0 <= a < b < top.len() implies (#[trigger] top[a]).domain
            != (#[trigger] top[b]).domain by {
            assert(out@[a].domain@ == entries@[a].0@);
            assert(out@[b].domain@ == entries@[b].0@);
        }
        assert forall|key: Seq<char>| #[trigger] members.dom().contains(key) implies exists|k: int|
            0 <= k < top.len() && (#[trigger] top[k]).domain == key by {
            let k = choose|k: int| 0 <= k < entries@.len() && (#[trigger] entries@[k]).0@ == key;
            assert(out@[k].domain@ == entries@[k].0@);
            assert(top[k].domain == key);
        }
    }
    out
}

/// Reads the figures of the dashboard from a reply of the storage worker.
pub fn parse_stats(reply: &Value) -> (r: DashboardStats)
    ensures
        lists_domains(r@.top_domains, stats_source(json_model(*reply)).member("top_domains"@)),
        r@ == stats_of(json_model(*reply), r@.top_domains),
{
    let stats = match value_get(reply, "stats") {
        Some(stats) => stats,
        None => reply,
    };
    let top_domains = parse_top_domains(stats);
    let traffic_by_hour: Vec<HourlyTraffic> = Vec::new();
    DashboardStats {
        total_devices: to_u32(count_or_zero_member(stats, "device_count")),
        online_devices: to_u32(count_or_zero_member(stats, "online_devices")),
        total_requests: count_or_zero_member(stats, "traffic_count"),
        blocked_requests: count_or_zero_member(stats, "blocked_count"),
        total_alerts: to_u32(count_or_zero_member(stats, "alert_count")),
        unresolved_alerts: to_u32(count_or_zero_member(stats, "unresolved_alerts")),
        total_bandwidth: add_capped(
            count_or_zero_member(stats, "bytes_in"),
            count_or_zero_member(stats, "bytes_out"),
        ),
        top_domains,
        traffic_by_hour,
    }
}

/// The records that a batch gives: each element that `read` accepts, in the
/// order of the batch, and nothing for an element that it turns down.
pub open spec fn kept<T>(items: Seq<JsonModel>, read: spec_fn(JsonModel) -> Option<T>) -> Seq<T>
    decreases items.len(),
{
    if items.len() == 0 {
        Seq::empty()
    } else {
        let before = kept(items.drop_last(), read);
        match read(items.last()) {
            Some(record) => before.push(record),
            None => before,
        }
    }
}

/// The device that one element of a batch describes. It must have an `id`, a
/// `mac_address` (or `mac`) and an `ip_address` (or `ip`), each a string. Of
/// the rest, a text that is missing is empty, a flag `false` and a count
/// zero.
pub open spec fn device_of(d: JsonModel) -> Option<DeviceView> {
    let id = text_of(d.member("id"@));
    let mac = text_of(first_present(d.member("mac_address"@), d.member("mac"@)));
    let ip = text_of(first_present(d.member("ip_address"@), d.member("ip"@)));
    if id is Some && mac is Some && ip is Some {
        Some(
            DeviceView {
                id: id->0,
                mac: mac->0,
                ip: ip->0,
                hostname: text_of(d.member("hostname"@)),
                vendor: text_of(first_present(d.member("manufacturer"@), d.member("vendor"@))),
                device_type: text_or(d.member("device_type"@), ""@),
                first_seen: text_or(d.member("first_seen"@), ""@),
                last_seen: text_or(d.member("last_seen"@), ""@),
                is_online: flag_or(d.member("is_online"@), false),
                is_monitored: flag_or(d.member("is_monitored"@), false),
                has_certificate: flag_or(d.member("has_certificate"@), false),
                total_bytes: count_or_zero(d.member("total_bytes"@)),
                blocked_requests: low32(count_or_zero(d.member("blocked_requests"@))),
                alerts: low32(count_or_zero(d.member("alerts"@))),
            },
        )
    } else {
        None
    }
}

/// `device_of`, as a value.
pub open spec fn device_reader() -> spec_fn(JsonModel) -> Option<DeviceView> {
    |d: JsonModel| device_of(d)
}

/// The devices in a reply: those that the elements of its array `devices`
/// describe, and none where it has no such array.
pub open spec fn devices_of(reply: JsonModel) -> Seq<DeviceView> {
    match items_of(reply.member("devices"@)) {
        Some(items) => kept(items, device_reader()),
        None => Seq::empty(),
    }
}

/// Where the content type of a traffic entry is looked for: under
/// `content_type`, or where there is nothing under that name, under
/// `response_body_type`.
pub open spec fn content_type_source(t: JsonModel) -> Option<JsonModel> {
    first_present(t.member("content_type"@), t.member("response_body_type"@))
}

/// Where the duration of a traffic entry is looked for: under `duration_ms`,
/// or where there is nothing under that name, under `duration`.
pub open spec fn duration_source(t: JsonModel) -> Option<JsonModel> {
    first_present(t.member("duration_ms"@), t.member("duration"@))
}

/// The traffic entry that one element of a batch describes, wherever the
/// batch comes from. It must have an `id` and a `timestamp`, each a string.
/// The content type and the duration are read under their current names
/// first and under their older names otherwise.
pub open spec fn traffic_entry_of(t: JsonModel) -> Option<TrafficEntryView> {
    let id = text_of(t.member("id"@));
    let timestamp = text_of(t.member("timestamp"@));
    if id is Some && timestamp is Some {
        Some(
            TrafficEntryView {
                id: id->0,
                timestamp: timestamp->0,
                device_id: text_of(t.member("device_id"@)),
                device_ip: text_or(t.member("device_ip"@), ""@),
                method: text_or(t.member("method"@), "GET"@),
                url: text_or(t.member("url"@), ""@),
                host: text_or(t.member("host"@), ""@),
                path: text_of(t.member("path"@)),
                status_code: match count_of(t.member("status_code"@)) {
                    Some(code) => Some(low16(code)),
                    None => None,
                },
                content_type: text_of(content_type_source(t)),
                request_size: count_or_zero(t.member("request_size"@)),
                response_size: count_or_zero(t.member("response_size"@)),
                duration: low32(count_or_zero(duration_source(t))),
                is_blocked: flag_or(t.member("blocked"@), false),
                has_alert: match items_of(t.member("alerts"@)) {
                    Some(alerts) => alerts.len() > 0,
                    None => false,
                },
                category: text_of(t.member("category"@)),
            },
        )
    } else {
        None
    }
}

/// `traffic_entry_of`, as a value.
pub open spec fn traffic_reader() -> spec_fn(JsonModel) -> Option<TrafficEntryView> {
    |t: JsonModel| traffic_entry_of(t)
}

/// The traffic entries in a reply: those that the elements of its array
/// `traffic` describe.
pub open spec fn traffic_of(reply: JsonModel) -> Seq<TrafficEntryView> {
    match items_of(reply.member("traffic"@)) {
        Some(items) => kept(items, traffic_reader()),
        None => Seq::empty(),
    }
}

/// The traffic entries that a search found: those that the elements of the
/// array `results` describe, each read as an entry of listed traffic is.
pub open spec fn search_results_of(reply: JsonModel) -> Seq<TrafficEntryView> {
    match items_of(reply.member("results"@)) {
        Some(items) => kept(items, traffic_reader()),
        None => Seq::empty(),
    }
}

/// `text_of`, as a reader of the elements of a batch.
pub open spec fn text_reader() -> spec_fn(JsonModel) -> Option<Seq<char>> {
    |m: JsonModel| text_of(Some(m))
}

/// The keywords that an alert matched: the strings of its list
/// `matched_keywords`, or where it has nothing under that name, the one
/// string under `matched_keyword`.
pub open spec fn keywords_of(a: JsonModel) -> Option<Seq<Seq<char>>> {
    match a.member("matched_keywords"@) {
        Some(list) => match items_of(Some(list)) {
            Some(words) => Some(kept(words, text_reader())),
            None => None,
        },
        None => match text_of(a.member("matched_keyword"@)) {
            Some(word) => Some(seq![word]),
            None => None,
        },
    }
}

/// The alert that one element of a batch describes. It must have an `id`, a
/// `timestamp`, a `severity`, a `category` and a `title`, each a string. What
/// the worker calls acknowledged counts as read and as resolved.
pub open spec fn alert_of(a: JsonModel) -> Option<AlertView> {
    let id = text_of(a.member("id"@));
    let timestamp = text_of(a.member("timestamp"@));
    let severity = text_of(a.member("severity"@));
    let category = text_of(a.member("category"@));
    let title = text_of(a.member("title"@));
    if id is Some && timestamp is Some && severity is Some && category is Some && title is Some {
        Some(
            AlertView {
                id: id->0,
                timestamp: timestamp->0,
                device_id: text_of(first_present(a.member("device_id"@), a.member("source_device"@))),
                severity: severity->0,
                category: category->0,
                title: title->0,
                description: text_or(a.member("description"@), ""@),
                url: text_of(a.member("url"@)),
                matched_keywords: keywords_of(a),
                is_read: flag_or(a.member("acknowledged"@), false),
                is_resolved: flag_or(a.member("acknowledged"@), false),
            },
        )
    } else {
        None
    }
}

/// `alert_of`, as a value.
pub open spec fn alert_reader() -> spec_fn(JsonModel) -> Option<AlertView> {
    |a: JsonModel| alert_of(a)
}

/// The alerts in a reply: those that the elements of its array `alerts`
/// describe.
pub open spec fn alerts_of(reply: JsonModel) -> Seq<AlertView> {
    match items_of(reply.member("alerts"@)) {
        Some(items) => kept(items, alert_reader()),
        None => Seq::empty(),
    }
}

/// The view of a record that may be missing.
pub open spec fn opt_view<T: View>(record: Option<T>) -> Option<T::V> {
    match record {
        Some(r) => Some(r@),
        None => None,
    }
}

/// Reads one device.
pub fn parse_device(d: &Value) -> (r: Option<Device>)
    ensures
        opt_view(r) == device_of(json_model(*d)),
{
    let id = match text_member(d, "id") {
        Some(id) => id,
        None => {
            return None;
        },
    };
    let mac = match aliased_text(d, "mac_address", "mac") {
        Some(mac) => mac,
        None => {
            return None;
        },
    };
    let ip = match aliased_text(d, "ip_address", "ip") {
        Some(ip) => ip,
        None => {
            return None;
        },
    };
    Some(
        Device {
            id,
            mac,
            ip,
            hostname: text_member(d, "hostname"),
            vendor: aliased_text(d, "manufacturer", "vendor"),
            device_type: text_or_default(d, "device_type", ""),
            first_seen: text_or_default(d, "first_seen", ""),
            last_seen: text_or_default(d, "last_seen", ""),
            is_online: flag_or_default(d, "is_online", false),
            is_monitored: flag_or_default(d, "is_monitored", false),
            has_certificate: flag_or_default(d, "has_certificate", false),
            total_bytes: count_or_zero_member(d, "total_bytes"),
            blocked_requests: to_u32(count_or_zero_member(d, "blocked_requests")),
            alerts: to_u32(count_or_zero_member(d, "alerts")),
        },
    )
}

/// Reads the devices of a reply, leaving out each that lacks a field it must
/// have.
pub fn parse_devices(json: &Value) -> (r: Vec<Device>)
    ensures
        views(r@) == devices_of(json_model(*json)),
{
    let mut out: Vec<Device> = Vec::new();
    assert(views(out@) =~= Seq::<DeviceView>::empty());
    let found = match value_get(json, "devices") {
        Some(found) => found,
        None => {
            return out;
        },
    };
    let items = match found.as_array() {
        Some(items) => items,
        None => {
            return out;
        },
    };
    assert(models(items@).take(0) =~= Seq::<JsonModel>::empty());
    let mut i: usize = 0;
    while i < items.len()
        invariant
            i <= items.len(),
            views(out@) == kept(models(items@).take(i as int), device_reader()),
        decreases items.len() - i,
    {
        let ghost before = views(out@);
        let record = parse_device(&items[i]);
        proof {
            let next = models(items@).take(i + 1);
            assert(next.drop_last() =~= models(items@).take(i as int));
            assert(next.last() == json_model(items@[i as int]));
        }
        match record {
            Some(device) => {
                out.push(device);
                assert(views(out@) =~= before.push(device@));
            },
            None => {},
        }
        i += 1;
    }
    assert(models(items@).take(items.len() as int) =~= models(items@));
    out
}

fn has_alerts(t: &Value) -> (r: bool)
    ensures
        r == match items_of(json_model(*t).member("alerts"@)) {
            Some(alerts) => alerts.len() > 0,
            None => false,
        },
{
    match value_get(t, "alerts") {
        Some(found) => match found.as_array() {
            Some(alerts) => alerts.len() > 0,
            None => false,
        },
        None => false,
    }
}

/// Reads one traffic entry.
pub fn parse_traffic_entry(t: &Value) -> (r: Option<TrafficEntry>)
    ensures
        opt_view(r) == traffic_entry_of(json_model(*t)),
{
    let id = match text_member(t, "id") {
        Some(id) => id,
        None => {
            return None;
        },
    };
    let timestamp = match text_member(t, "timestamp") {
        Some(timestamp) => timestamp,
        None => {
            return None;
        },
    };
    let status_code = match count_member(t, "status_code") {
        Some(code) => Some(to_u16(code)),
        None => None,
    };
    let content_type = aliased_text(t, "content_type", "response_body_type");
    let duration = aliased_count_or_zero(t, "duration_ms", "duration");
    Some(
        TrafficEntry {
            id,
            timestamp,
            device_id: text_member(t, "device_id"),
            device_ip: text_or_default(t, "device_ip", ""),
            method: text_or_default(t, "method", "GET"),
            url: text_or_default(t, "url", ""),
            host: text_or_default(t, "host", ""),
            path: text_member(t, "path"),
            status_code,
            content_type,
            request_size: count_or_zero_member(t, "request_size"),
            response_size: count_or_zero_member(t, "response_size"),
            duration: to_u32(duration),
            is_blocked: flag_or_default(t, "blocked", false),
            has_alert: has_alerts(t),
            category: text_member(t, "category"),
        },
    )
}

fn parse_traffic_entries(items: &Vec<Value>) -> (r: Vec<TrafficEntry>)
    ensures
        views(r@) == kept(models(items@), traffic_reader()),
{
    let mut out: Vec<TrafficEntry> = Vec::new();
    assert(views(out@) =~= Seq::<TrafficEntryView>::empty());
    assert(models(items@).take(0) =~= Seq::<JsonModel>::empty());
    let mut i: usize = 0;
    while i < items.len()
        invariant
            i <= items.len(),
            views(out@) == kept(models(items@).take(i as int), traffic_reader()),
        decreases items.len() - i,
    {
        let ghost before = views(out@);
        let record = parse_traffic_entry(&items[i]);
        proof {
            let next = models(items@).take(i + 1);
            assert(next.drop_last() =~= models(items@).take(i as int));
            assert(next.last() == json_model(items@[i as int]));
        }
        match record {
            Some(entry) => {
                out.push(entry);
                assert(views(out@) =~= before.push(entry@));
            },
            None => {},
        }
        i += 1;
    }
    assert(models(items@).take(items.len() as int) =~= models(items@));
    out
}

/// Reads the traffic entries of a reply, leaving out each that lacks a field
/// it must have.
pub fn parse_traffic(json: &Value) -> (r: Vec<TrafficEntry>)
    ensures
        views(r@) == traffic_of(json_model(*json)),
{
    let found = match value_get(json, "traffic") {
        Some(found) => found.as_array(),
        None => None,
    };
    match found {
        Some(items) => parse_traffic_entries(items),
        None => {
            let out: Vec<TrafficEntry> = Vec::new();
            assert(views(out@) =~= Seq::<TrafficEntryView>::empty());
            out
        },
    }
}

/// Reads the traffic entries that a search found, each as an entry of listed
/// traffic is read.
pub fn parse_search_results(json: &Value) -> (r: Vec<TrafficEntry>)
    ensures
        views(r@) == search_results_of(json_model(*json)),
{
    let found = match value_get(json, "results") {
        Some(found) => found.as_array(),
        None => None,
    };
    match found {
        Some(items) => parse_traffic_entries(items),
        None => {
            let out: Vec<TrafficEntry> = Vec::new();
            assert(views(out@) =~= Seq::<TrafficEntryView>::empty());
            out
        },
    }
}

/// Reads the keywords that an alert matched.
pub fn parse_keywords(a: &Value) -> (r: Option<Vec<String>>)
    ensures
        match r {
            Some(words) => keywords_of(json_model(*a)) == Some(texts(words@)),
            None => keywords_of(json_model(*a)) is None,
        },
{
    match value_get(a, "matched_keywords") {
        Some(list) => {
            let items = match list.as_array() {
                Some(items) => items,
                None => {
                    return None;
                },
            };
            let mut words: Vec<String> = Vec::new();
            assert(texts(words@) =~= Seq::<Seq<char>>::empty());
            assert(models(items@).take(0) =~= Seq::<JsonModel>::empty());
            let mut i: usize = 0;
            while i < items.len()
                invariant
                    i <= items.len(),
                    texts(words@) == kept(models(items@).take(i as int), text_reader()),
                decreases items.len() - i,
            {
                let ghost before = texts(words@);
                proof {
                    let next = models(items@).take(i + 1);
                    assert(next.drop_last() =~= models(items@).take(i as int));
                    assert(next.last() == json_model(items@[i as int]));
                }
                match items[i].as_str() {
                    Some(word) => {
                        words.push(word.to_owned());
                        assert(texts(words@) =~= before.push(word@));
                    },
                    None => {},
                }
                i += 1;
            }
            assert(models(items@).take(items.len() as int) =~= models(items@));
            Some(words)
        },
        None => match text_member(a, "matched_keyword") {
            Some(word) => {
                let mut words: Vec<String> = Vec::new();
                words.push(word);
                assert(texts(words@) =~= seq![word@]);
                Some(words)
            },
            None => None,
        },
    }
}

/// Reads one alert.
pub fn parse_alert(a: &Value) -> (r: Option<Alert>)
    ensures
        opt_view(r) == alert_of(json_model(*a)),
{
    let id = match text_member(a, "id") {
        Some(id) => id,
        None => {
            return None;
        },
    };
    let timestamp = match text_member(a, "timestamp") {
        Some(timestamp) => timestamp,
        None => {
            return None;
        },
    };
    let severity = match text_member(a, "severity") {
        Some(severity) => severity,
        None => {
            return None;
        },
    };
    let category = match text_member(a, "category") {
        Some(category) => category,
        None => {
            return None;
        },
    };
    let title = match text_member(a, "title") {
        Some(title) => title,
        None => {
            return None;
        },
    };
    let matched_keywords = parse_keywords(a);
    let acknowledged = flag_or_default(a, "acknowledged", false);
    Some(
        Alert {
            id,
            timestamp,
            device_id: aliased_text(a, "device_id", "source_device"),
            severity,
            category,
            title,
            description: text_or_default(a, "description", ""),
            url: text_member(a, "url"),
            matched_keywords,
            is_read: acknowledged,
            is_resolved: acknowledged,
        },
    )
}

/// Reads the alerts of a reply, leaving out each that lacks a field it must
/// have.
pub fn parse_alerts(json: &Value) -> (r: Vec<Alert>)
    ensures
        views(r@) == alerts_of(json_model(*json)),
{
    let mut out: Vec<Alert> = Vec::new();
    assert(views(out@) =~= Seq::<AlertView>::empty());
    let found = match value_get(json, "alerts") {
        Some(found) => found,
        None => {
            return out;
        },
    };
    let items = match found.as_array() {
        Some(items) => items,
        None => {
            return out;
        },
    };
    assert(models(items@).take(0) =~= Seq::<JsonModel>::empty());
    let mut i: usize = 0;
    while i < items.len()
        invariant
            i <= items.len(),
            views(out@) == kept(models(items@).take(i as int), alert_reader()),
        decreases items.len() - i,
    {
        let ghost before = views(out@);
        let record = parse_alert(&items[i]);
        proof {
            let next = models(items@).take(i + 1);
            assert(next.drop_last() =~= models(items@).take(i as int));
            assert(next.last() == json_model(items@[i as int]));
        }
        match record {
            Some(alert) => {
                out.push(alert);
                assert(views(out@) =~= before.push(alert@));
            },
            None => {},
        }
        i += 1;
    }
    assert(models(items@).take(items.len() as int) =~= models(items@));
    out
}

/// A batch in two parts gives what the first part gives, followed by what the
/// second part gives.
pub proof fn lemma_kept_concat<T>(
    first: Seq<JsonModel>,
    second: Seq<JsonModel>,
    read: spec_fn(JsonModel) -> Option<T>,
)
    ensures
        kept(first + second, read) == kept(first, read) + kept(second, read),
    decreases second.len(),
{
    if second.len() == 0 {
        assert(first + second =~= first);
        assert(kept(first, read) + kept(second, read) =~= kept(first, read));
    } else {
        let whole = first + second;
        assert(whole.drop_last() =~= first + second.drop_last());
        assert(whole.last() == second.last());
        lemma_kept_concat(first, second.drop_last(), read);
        match read(second.last()) {
            Some(record) => {
                assert(kept(whole, read) =~= kept(first, read) + kept(second, read));
            },
            None => {},
        }
    }
}

/// An element that is turned down leaves no trace, and the rest of the batch
/// stays: the batch gives what the elements before it give, followed by what
/// the elements after it give.
pub proof fn lemma_dropped_record<T>(
    items: Seq<JsonModel>,
    read: spec_fn(JsonModel) -> Option<T>,
    i: int,
)
    requires
        0 <= i < items.len(),
        read(items[i]) is None,
    ensures
        kept(items, read) == kept(items.take(i), read) + kept(items.skip(i + 1), read),
{
    let one = seq![items[i]];
    assert(items =~= items.take(i) + one + items.skip(i + 1));
    lemma_kept_concat(items.take(i) + one, items.skip(i + 1), read);
    lemma_kept_concat(items.take(i), one, read);
    assert(one.drop_last() =~= Seq::<JsonModel>::empty());
    assert(kept(one.drop_last(), read) =~= Seq::<T>::empty());
    assert(one.last() == items[i]);
    assert(kept(one, read) =~= Seq::<T>::empty());
    assert(kept(items.take(i), read) + kept(one, read) =~= kept(items.take(i), read));
}

/// An element that is accepted gives its record at its place: after the
/// records of the elements before it, and before those of the elements after
/// it.
pub proof fn lemma_kept_record<T>(
    items: Seq<JsonModel>,
    read: spec_fn(JsonModel) -> Option<T>,
    i: int,
)
    requires
        0 <= i < items.len(),
        read(items[i]) is Some,
    ensures
        kept(items, read) == kept(items.take(i), read).push(read(items[i])->0) + kept(
            items.skip(i + 1),
            read,
        ),
{
    let one = seq![items[i]];
    assert(items =~= items.take(i) + one + items.skip(i + 1));
    lemma_kept_concat(items.take(i) + one, items.skip(i + 1), read);
    lemma_kept_concat(items.take(i), one, read);
    assert(one.drop_last() =~= Seq::<JsonModel>::empty());
    assert(kept(one.drop_last(), read) =~= Seq::<T>::empty());
    assert(one.last() == items[i]);
    assert(kept(one, read) =~= seq![read(items[i])->0]);
    assert(kept(items.take(i), read) + kept(one, read) =~= kept(items.take(i), read).push(
        read(items[i])->0,
    ));
}

/// A device is read exactly where it has the three fields that it must have.
pub proof fn lemma_device_required_fields(d: JsonModel)
    ensures
        device_of(d) is Some <==> {
            &&& text_of(d.member("id"@)) is Some
            &&& text_of(first_present(d.member("mac_address"@), d.member("mac"@))) is Some
            &&& text_of(first_present(d.member("ip_address"@), d.member("ip"@))) is Some
        },
{
}

/// A traffic entry is read exactly where it has an identifier and a
/// timestamp.
pub proof fn lemma_traffic_required_fields(t: JsonModel)
    ensures
        traffic_entry_of(t) is Some <==> {
            &&& text_of(t.member("id"@)) is Some
            &&& text_of(t.member("timestamp"@)) is Some
        },
{
}

/// An alert is read exactly where it has the five fields that it must have.
pub proof fn lemma_alert_required_fields(a: JsonModel)
    ensures
        alert_of(a) is Some <==> {
            &&& text_of(a.member("id"@)) is Some
            &&& text_of(a.member("timestamp"@)) is Some
            &&& text_of(a.member("severity"@)) is Some
            &&& text_of(a.member("category"@)) is Some
            &&& text_of(a.member("title"@)) is Some
        },
{
}

/// A device without an identifier, or without its hardware or network
/// address, is left out of the devices of a reply, and every other device of
/// the reply is still there, in its place.
pub proof fn lemma_incomplete_device_is_dropped(reply: JsonModel, items: Seq<JsonModel>, i: int)
    requires
        items_of(reply.member("devices"@)) == Some(items),
        0 <= i < items.len(),
        text_of(items[i].member("id"@)) is None || text_of(
            first_present(items[i].member("mac_address"@), items[i].member("mac"@)),
        ) is None || text_of(
            first_present(items[i].member("ip_address"@), items[i].member("ip"@)),
        ) is None,
    ensures
        devices_of(reply) == kept(items.take(i), device_reader()) + kept(
            items.skip(i + 1),
            device_reader(),
        ),
{
    lemma_dropped_record(items, device_reader(), i);
}

/// A traffic entry without an identifier or without a timestamp is left out
/// of the traffic of a reply, and every other entry of the reply is still
/// there, in its place.
pub proof fn lemma_incomplete_traffic_is_dropped(
    reply: JsonModel,
    items: Seq<JsonModel>,
    i: int,
)
    requires
        items_of(reply.member("traffic"@)) == Some(items),
        0 <= i < items.len(),
        text_of(items[i].member("id"@)) is None || text_of(items[i].member("timestamp"@)) is None,
    ensures
        traffic_of(reply) == kept(items.take(i), traffic_reader()) + kept(
            items.skip(i + 1),
            traffic_reader(),
        ),
{
    lemma_dropped_record(items, traffic_reader(), i);
}

/// What a search found is read as listed traffic is: the same elements give
/// the same entries, under `results` as under `traffic`.
pub proof fn lemma_search_results_read_as_traffic(found: JsonModel, listed: JsonModel)
    requires
        items_of(found.member("results"@)) == items_of(listed.member("traffic"@)),
    ensures
        search_results_of(found) == traffic_of(listed),
{
}

/// A search result without an identifier or without a timestamp is left
/// out, and every other result of the reply is still there, in its place.
pub proof fn lemma_incomplete_search_result_is_dropped(
    reply: JsonModel,
    items: Seq<JsonModel>,
    i: int,
)
    requires
        items_of(reply.member("results"@)) == Some(items),
        0 <= i < items.len(),
        text_of(items[i].member("id"@)) is None || text_of(items[i].member("timestamp"@)) is None,
    ensures
        search_results_of(reply) == kept(items.take(i), traffic_reader()) + kept(
            items.skip(i + 1),
            traffic_reader(),
        ),
{
    lemma_dropped_record(items, traffic_reader(), i);
}

/// An alert without an identifier or a timestamp, or without its severity,
/// category or title, is left out of the alerts of a reply, and every other
/// alert of the reply is still there, in its place.
pub proof fn lemma_incomplete_alert_is_dropped(reply: JsonModel, items: Seq<JsonModel>, i: int)
    requires
        items_of(reply.member("alerts"@)) == Some(items),
        0 <= i < items.len(),
        text_of(items[i].member("id"@)) is None || text_of(items[i].member("timestamp"@)) is None
            || text_of(items[i].member("severity"@)) is None || text_of(
            items[i].member("category"@),
        ) is None || text_of(items[i].member("title"@)) is None,
    ensures
        alerts_of(reply) == kept(items.take(i), alert_reader()) + kept(
            items.skip(i + 1),
            alert_reader(),
        ),
{
    lemma_dropped_record(items, alert_reader(), i);
}

/// A device that has what it must have is read whatever else it lacks, and
/// each field that it lacks has its default: no host name and no vendor, an
/// empty text for the type and for each time, `false` for each flag, and
/// zero for each count.
pub proof fn lemma_device_defaults(d: JsonModel)
    requires
        text_of(d.member("id"@)) is Some,
        text_of(first_present(d.member("mac_address"@), d.member("mac"@))) is Some,
        text_of(first_present(d.member("ip_address"@), d.member("ip"@))) is Some,
    ensures
        device_of(d) is Some,
        d.member("hostname"@) is None ==> device_of(d)->0.hostname is None,
        d.member("manufacturer"@) is None && d.member("vendor"@) is None ==> device_of(
            d,
        )->0.vendor is None,
        d.member("device_type"@) is None ==> device_of(d)->0.device_type == ""@,
        d.member("first_seen"@) is None ==> device_of(d)->0.first_seen == ""@,
        d.member("last_seen"@) is None ==> device_of(d)->0.last_seen == ""@,
        d.member("is_online"@) is None ==> !device_of(d)->0.is_online,
        d.member("is_monitored"@) is None ==> !device_of(d)->0.is_monitored,
        d.member("has_certificate"@) is None ==> !device_of(d)->0.has_certificate,
        d.member("total_bytes"@) is None ==> device_of(d)->0.total_bytes == 0,
        d.member("blocked_requests"@) is None ==> device_of(d)->0.blocked_requests == 0,
        d.member("alerts"@) is None ==> device_of(d)->0.alerts == 0,
{
}

/// A traffic entry that has what it must have is read whatever else it
/// lacks, and each field that it lacks has its default: the method `GET`,
/// empty texts, zero sizes and duration, not blocked, no alert, and nothing
/// for each field that may be missing.
pub proof fn lemma_traffic_defaults(t: JsonModel)
    requires
        text_of(t.member("id"@)) is Some,
        text_of(t.member("timestamp"@)) is Some,
    ensures
        traffic_entry_of(t) is Some,
        t.member("device_id"@) is None ==> traffic_entry_of(t)->0.device_id is None,
        t.member("device_ip"@) is None ==> traffic_entry_of(t)->0.device_ip == ""@,
        t.member("method"@) is None ==> traffic_entry_of(t)->0.method == "GET"@,
        t.member("url"@) is None ==> traffic_entry_of(t)->0.url == ""@,
        t.member("host"@) is None ==> traffic_entry_of(t)->0.host == ""@,
        t.member("path"@) is None ==> traffic_entry_of(t)->0.path is None,
        t.member("status_code"@) is None ==> traffic_entry_of(t)->0.status_code is None,
        content_type_source(t) is None ==> traffic_entry_of(t)->0.content_type
            is None,
        t.member("request_size"@) is None ==> traffic_entry_of(t)->0.request_size == 0,
        t.member("response_size"@) is None ==> traffic_entry_of(t)->0.response_size == 0,
        duration_source(t) is None ==> traffic_entry_of(t)->0.duration == 0,
        t.member("blocked"@) is None ==> !traffic_entry_of(t)->0.is_blocked,
        t.member("alerts"@) is None ==> !traffic_entry_of(t)->0.has_alert,
        t.member("category"@) is None ==> traffic_entry_of(t)->0.category is None,
{
}

/// An alert that has what it must have is read whatever else it lacks, and
/// each field that it lacks has its default: an empty description, neither
/// read nor resolved, and nothing for each field that may be missing.
pub proof fn lemma_alert_defaults(a: JsonModel)
    requires
        text_of(a.member("id"@)) is Some,
        text_of(a.member("timestamp"@)) is Some,
        text_of(a.member("severity"@)) is Some,
        text_of(a.member("category"@)) is Some,
        text_of(a.member("title"@)) is Some,
    ensures
        alert_of(a) is Some,
        a.member("device_id"@) is None && a.member("source_device"@) is None ==> alert_of(
            a,
        )->0.device_id is None,
        a.member("description"@) is None ==> alert_of(a)->0.description == ""@,
        a.member("url"@) is None ==> alert_of(a)->0.url is None,
        a.member("matched_keywords"@) is None && a.member("matched_keyword"@) is None
            ==> alert_of(a)->0.matched_keywords is None,
        a.member("acknowledged"@) is None ==> !alert_of(a)->0.is_read && !alert_of(
            a,
        )->0.is_resolved,
{
}

/// The figures of a reply that lacks them are zero, and its list of domains
/// is empty where it names none.
pub proof fn lemma_stats_defaults(reply: JsonModel, top: Seq<TopDomainView>)
    requires
        lists_domains(top, stats_source(reply).member("top_domains"@)),
    ensures
        stats_source(reply).member("device_count"@) is None ==> stats_of(reply, top).total_devices
            == 0,
        stats_source(reply).member("online_devices"@) is None ==> stats_of(
            reply,
            top,
        ).online_devices == 0,
        stats_source(reply).member("traffic_count"@) is None ==> stats_of(
            reply,
            top,
        ).total_requests == 0,
        stats_source(reply).member("blocked_count"@) is None ==> stats_of(
            reply,
            top,
        ).blocked_requests == 0,
        stats_source(reply).member("alert_count"@) is None ==> stats_of(reply, top).total_alerts
            == 0,
        stats_source(reply).member("unresolved_alerts"@) is None ==> stats_of(
            reply,
            top,
        ).unresolved_alerts == 0,
        stats_source(reply).member("bytes_in"@) is None && stats_source(reply).member(
            "bytes_out"@,
        ) is None ==> stats_of(reply, top).total_bandwidth == 0,
        stats_source(reply).member("top_domains"@) is None ==> top.len() == 0,
{
}

/// Where a device has a field under its current name, that is the one read,
/// whatever stands under the older name.
pub proof fn lemma_device_prefers_current_names(d: JsonModel)
    requires
        device_of(d) is Some,
    ensures
        d.member("mac_address"@) is Some ==> Some(device_of(d)->0.mac) == text_of(
            d.member("mac_address"@),
        ),
        d.member("ip_address"@) is Some ==> Some(device_of(d)->0.ip) == text_of(
            d.member("ip_address"@),
        ),
        d.member("manufacturer"@) is Some ==> device_of(d)->0.vendor == text_of(
            d.member("manufacturer"@),
        ),
{
}

/// Where a traffic entry has its content type or its duration under the
/// current name, that is the one read, whatever stands under the older name.
pub proof fn lemma_traffic_prefers_current_names(t: JsonModel)
    requires
        traffic_entry_of(t) is Some,
    ensures
        t.member("content_type"@) is Some ==> traffic_entry_of(t)->0.content_type
            == text_of(t.member("content_type"@)),
        t.member("duration_ms"@) is Some ==> traffic_entry_of(t)->0.duration == low32(
            count_or_zero(t.member("duration_ms"@)),
        ),
{
}

/// Where an alert names its device or lists its keywords under the current
/// name, that is what is read, whatever stands under the older name.
pub proof fn lemma_alert_prefers_current_names(a: JsonModel)
    requires
        alert_of(a) is Some,
    ensures
        a.member("device_id"@) is Some ==> alert_of(a)->0.device_id == text_of(
            a.member("device_id"@),
        ),
        items_of(a.member("matched_keywords"@)) is Some ==> alert_of(a)->0.matched_keywords
            == Some(kept(items_of(a.member("matched_keywords"@))->0, text_reader())),
{
}

} // verus!
