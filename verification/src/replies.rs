//! What the replies of the workers mean.
//!
//! A worker answers with one JSON object. Its member `success` tells whether
//! it did what it was asked; where it did not, its member `error` tells why.
//! Each function here reads the reply to one kind of operation.

use crate::commands::{Alert, AlertView, DashboardStats, Device, TrafficEntry};
use crate::error::{failure, plain_failure, CommandError, CommandErrorView, ErrorKind};
use crate::json::{
    aliased_text, first_present, flag_or, flag_or_default, json_model, text_or, text_or_default,
    JsonModel,
};
use crate::normalize::{
    alerts_of, devices_of, lists_domains, parse_alerts, parse_devices, parse_search_results,
    parse_stats, parse_traffic, search_results_of, stats_of, stats_source, traffic_of,
};
use crate::state::{AppState, AppStateView};
use crate::text::{joined, views};
use serde_json::Value;
use vstd::pervasive::unreached;
use vstd::prelude::*;
use vstd::string::StringExecFns;

verus! {

/// Whether a worker reports that it did what it was asked: the member
/// `success` of its reply is `true`.
pub open spec fn succeeded(reply: JsonModel) -> bool {
    flag_or(reply.member("success"@), false)
}

/// What a worker says went wrong: the member `error` of its reply, word for
/// word, or `Unknown error` where it says nothing.
pub open spec fn reported_error(reply: JsonModel) -> Seq<char> {
    text_or(reply.member("error"@), "Unknown error"@)
}

/// The failure that a reply without success is.
pub open spec fn domain_failure(reply: JsonModel) -> CommandErrorView {
    failure(ErrorKind::Domain, reported_error(reply))
}

/// What the stealth worker says went wrong: its `message`, or where it has
/// none its `error`, or `Unknown error`.
pub open spec fn stealth_error(reply: JsonModel) -> Seq<char> {
    text_or(first_present(reply.member("message"@), reply.member("error"@)), "Unknown error"@)
}

/// Whether a worker reports that it did what it was asked.
pub fn reply_succeeded(reply: &Value) -> (r: bool)
    ensures
        r == succeeded(json_model(*reply)),
{
    flag_or_default(reply, "success", false)
}

/// The failure that a reply without success is.
pub fn reply_failure(reply: &Value) -> (r: CommandError)
    ensures
        r@ == domain_failure(json_model(*reply)),
{
    CommandError::new(ErrorKind::Domain, text_or_default(reply, "error", "Unknown error"))
}

/// Reads the reply to an operation that gives nothing back.
pub fn acknowledged(reply: &Value) -> (r: Result<(), CommandError>)
    ensures
        match r {
            Ok(_) => succeeded(json_model(*reply)),
            Err(e) => !succeeded(json_model(*reply)) && e@ == domain_failure(json_model(*reply)),
        },
{
    if reply_succeeded(reply) {
        Ok(())
    } else {
        Err(reply_failure(reply))
    }
}

/// Reads the reply to `get_devices` and to `scan_devices`.
pub fn devices_reply(reply: &Value) -> (r: Result<Vec<Device>, CommandError>)
    ensures
        match r {
            Ok(devices) => succeeded(json_model(*reply)) && views(devices@) == devices_of(
                json_model(*reply),
            ),
            Err(e) => !succeeded(json_model(*reply)) && e@ == domain_failure(json_model(*reply)),
        },
{
    if reply_succeeded(reply) {
        Ok(parse_devices(reply))
    } else {
        Err(reply_failure(reply))
    }
}

/// Reads the reply to `get_traffic`.
pub fn traffic_reply(reply: &Value) -> (r: Result<Vec<TrafficEntry>, CommandError>)
    ensures
        match r {
            Ok(entries) => succeeded(json_model(*reply)) && views(entries@) == traffic_of(
                json_model(*reply),
            ),
            Err(e) => !succeeded(json_model(*reply)) && e@ == domain_failure(json_model(*reply)),
        },
{
    if reply_succeeded(reply) {
        Ok(parse_traffic(reply))
    } else {
        Err(reply_failure(reply))
    }
}

/// Reads the reply to `search_traffic`.
pub fn search_reply(reply: &Value) -> (r: Result<Vec<TrafficEntry>, CommandError>)
    ensures
        match r {
            Ok(entries) => succeeded(json_model(*reply)) && views(entries@) == search_results_of(
                json_model(*reply),
            ),
            Err(e) => !succeeded(json_model(*reply)) && e@ == domain_failure(json_model(*reply)),
        },
{
    if reply_succeeded(reply) {
        Ok(parse_search_results(reply))
    } else {
        Err(reply_failure(reply))
    }
}

/// Reads the reply to `get_traffic_details`: the first entry of the reply,
/// and a failure where it has none.
pub fn traffic_details_reply(reply: &Value) -> (r: Result<TrafficEntry, CommandError>)
    ensures
        match r {
            Ok(entry) => succeeded(json_model(*reply)) && traffic_of(json_model(*reply)).len() > 0
                && entry@ == traffic_of(json_model(*reply))[0],
            Err(e) => if !succeeded(json_model(*reply)) {
                e@ == domain_failure(json_model(*reply))
            } else {
                traffic_of(json_model(*reply)).len() == 0 && e@ == failure(
                    ErrorKind::NotFound,
                    "Traffic entry not found"@,
                )
            },
        },
{
    if !reply_succeeded(reply) {
        return Err(reply_failure(reply));
    }
    let mut entries = parse_traffic(reply);
    let ghost all = entries@;
    if entries.len() == 0 {
        return Err(plain_failure(ErrorKind::NotFound, "Traffic entry not found"));
    }
    entries.truncate(1);
    match entries.pop() {
        Some(entry) => {
            assert(entry == all[0]);
            assert(views(all)[0] == entry@);
            Ok(entry)
        },
        None => unreached(),
    }
}

/// The alerts among `alerts` that were not read, in their order.
pub open spec fn unread(alerts: Seq<AlertView>) -> Seq<AlertView>
    decreases alerts.len(),
{
    if alerts.len() == 0 {
        Seq::empty()
    } else {
        let before = unread(alerts.drop_last());
        if alerts.last().is_read {
            before
        } else {
            before.push(alerts.last())
        }
    }
}

/// The alerts that a query asks for: all, or with `unread_only` those that
/// were not read.
pub open spec fn selected_alerts(alerts: Seq<AlertView>, unread_only: Option<bool>) -> Seq<
    AlertView,
> {
    if unread_only == Some(true) {
        unread(alerts)
    } else {
        alerts
    }
}

/// Keeps the alerts that were not read.
pub fn unread_alerts(alerts: Vec<Alert>) -> (r: Vec<Alert>)
    ensures
        views(r@) == unread(views(alerts@)),
{
    let ghost all = alerts@;
    let mut out: Vec<Alert> = Vec::new();
    assert(views(out@) =~= Seq::<AlertView>::empty());
    assert(views(all.take(0)) =~= Seq::<AlertView>::empty());
    for alert in it: alerts
        invariant
            it.seq() == all,
            views(out@) == unread(views(all.take(it.index()))),
    {
        let ghost before = views(out@);
        proof {
            let next = views(all.take(it.index() + 1));
            assert(next.drop_last() =~= views(all.take(it.index())));
            assert(next.last() == alert@);
        }
        if !alert.is_read {
            out.push(alert);
            assert(views(out@) =~= before.push(alert@));
        }
    }
    assert(all.take(all.len() as int) =~= all);
    out
}

/// Reads the reply to `get_alerts`; with `unread_only`, only the alerts that
/// were not read are handed on.
pub fn alerts_reply(reply: &Value, unread_only: Option<bool>) -> (r: Result<
    Vec<Alert>,
    CommandError,
>)
    ensures
        match r {
            Ok(alerts) => succeeded(json_model(*reply)) && views(alerts@) == selected_alerts(
                alerts_of(json_model(*reply)),
                unread_only,
            ),
            Err(e) => !succeeded(json_model(*reply)) && e@ == domain_failure(json_model(*reply)),
        },
{
    if !reply_succeeded(reply) {
        return Err(reply_failure(reply));
    }
    let alerts = parse_alerts(reply);
    let wanted = match unread_only {
        Some(only) => only,
        None => false,
    };
    if wanted {
        Ok(unread_alerts(alerts))
    } else {
        Ok(alerts)
    }
}

/// Reads the reply to `get_stats`.
pub fn stats_reply(reply: &Value) -> (r: Result<DashboardStats, CommandError>)
    ensures
        match r {
            Ok(stats) => succeeded(json_model(*reply)) && lists_domains(
                stats@.top_domains,
                stats_source(json_model(*reply)).member("top_domains"@),
            ) && stats@ == stats_of(json_model(*reply), stats@.top_domains),
            Err(e) => !succeeded(json_model(*reply)) && e@ == domain_failure(json_model(*reply)),
        },
{
    if reply_succeeded(reply) {
        Ok(parse_stats(reply))
    } else {
        Err(reply_failure(reply))
    }
}

/// Reads the reply to `generate_certificate`: where the certificate was
/// written, by the worker's word or at its usual place.
pub fn certificate_reply(reply: &Value) -> (r: Result<String, CommandError>)
    ensures
        match r {
            Ok(text) => succeeded(json_model(*reply)) && text@ == "Certificate generated: "@
                + text_or(json_model(*reply).member("cert_path"@), "certs/ca.crt"@),
            Err(e) => !succeeded(json_model(*reply)) && e@ == domain_failure(json_model(*reply)),
        },
{
    if reply_succeeded(reply) {
        let path = text_or_default(reply, "cert_path", "certs/ca.crt");
        Ok(joined("Certificate generated: ", path.as_str()))
    } else {
        Err(reply_failure(reply))
    }
}

/// Reads the reply to `get_cert_url`: the address under which the
/// certificate server is reached, at the host's address by the worker's word
/// or at the usual one.
pub fn cert_url_reply(reply: &Value) -> (r: String)
    ensures
        r@ == "http://"@ + text_or(json_model(*reply).member("ip"@), "192.168.1.1"@) + ":8888"@,
{
    let ip = text_or_default(reply, "ip", "192.168.1.1");
    let mut url = joined("http://", ip.as_str());
    url.append(":8888");
    url
}

/// Reads the reply to `change_stealth_profile`. Where the worker applied the
/// profile, the session holds it from now on; the caller then enters it into
/// the settings with `with_device_profile` and saves them. Otherwise nothing
/// changes.
pub fn stealth_profile_applied<H>(state: &mut AppState<H>, profile_id: &str, reply: &Value) -> (r:
    Result<(), CommandError>)
    ensures
        match r {
            Ok(_) => succeeded(json_model(*reply)) && final(state)@ == (AppStateView {
                current_profile: profile_id@,
                ..old(state)@
            }),
            Err(e) => !succeeded(json_model(*reply)) && final(state)@ == old(state)@ && e@
                == failure(ErrorKind::Domain, stealth_error(json_model(*reply))),
        },
{
    if reply_succeeded(reply) {
        state.current_profile = profile_id.to_owned();
        Ok(())
    } else {
        let message = match aliased_text(reply, "message", "error") {
            Some(message) => message,
            None => "Unknown error".to_owned(),
        };
        Err(CommandError::new(ErrorKind::Domain, message))
    }
}

/// Where the stealth worker gives a `message`, that is what is reported,
/// whatever it gives as `error`.
pub proof fn lemma_stealth_prefers_message(reply: JsonModel)
    requires
        reply.member("message"@) is Some,
    ensures
        stealth_error(reply) == text_or(reply.member("message"@), "Unknown error"@),
{
}

} // verus!
