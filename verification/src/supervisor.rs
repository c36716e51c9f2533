//! Starting and stopping the workers that monitoring consists of.
//!
//! The caller owns the processes. Each function here decides what is to be
//! done next and keeps the session's state; the caller starts and ends the
//! processes and reports how each start went.

use crate::commands::{MonitoringStatus, MonitoringStatusView, Settings, SettingsView};
use crate::error::{
    failure, fault_failure, io_failure, plain_failure, CommandError, CommandErrorView, ErrorKind,
    Fault,
};
use crate::python::{invocation, kill_python_processes, push_arg, Invocation, InvocationView};
use crate::state::{consistent, AppState, AppStateView};
use crate::text::texts;
use vstd::prelude::*;

verus! {

/// One of the workers that monitoring consists of, in the order in which
/// they are started.
#[derive(Debug, Clone, Copy, PartialEq, Eq, Structural)]
pub enum Worker {
    ArpGateway,
    HttpsProxy,
    DnsCapture,
}

/// The worker that is started after `worker`, if any.
pub open spec fn next_worker(worker: Worker) -> Option<Worker> {
    match worker {
        Worker::ArpGateway => Some(Worker::HttpsProxy),
        Worker::HttpsProxy => Some(Worker::DnsCapture),
        Worker::DnsCapture => None,
    }
}

/// The step that fails where `worker` cannot be started.
pub open spec fn launch_fault(worker: Worker) -> Fault {
    match worker {
        Worker::ArpGateway => Fault::StartArpGateway,
        Worker::HttpsProxy => Fault::StartHttpsProxy,
        Worker::DnsCapture => Fault::StartDnsCapture,
    }
}

/// The network interface that the workers listen on: the one that the
/// settings name, or `Wi-Fi`.
pub open spec fn interface_of(settings: SettingsView) -> Seq<char> {
    match settings.network_interface {
        Some(interface) => interface,
        None => "Wi-Fi"@,
    }
}

/// How `worker` is invoked to listen on `interface`.
pub open spec fn worker_invocation(worker: Worker, interface: Seq<char>) -> InvocationView {
    match worker {
        Worker::ArpGateway => invocation(
            "python/arp/arp_gateway.py"@,
            seq!["--interface"@, interface],
        ),
        Worker::HttpsProxy => invocation(
            "python/https/transparent_proxy.py"@,
            seq!["--action"@, "start"@],
        ),
        Worker::DnsCapture => invocation(
            "python/dns/dns_capture.py"@,
            seq!["--interface"@, interface],
        ),
    }
}

/// What is to be done after a worker was, or was not, started.
#[derive(Debug)]
pub enum StartStep<H> {
    /// Start this worker next, and report how it went.
    Launch(Worker),
    /// Every worker runs: monitoring is on.
    Started,
    /// The attempt is over. End these processes; then report the failure.
    Failed(Vec<H>, CommandError),
}

/// A step, with its texts and lists as plain sequences.
pub enum StartStepView<H> {
    Launch(Worker),
    Started,
    Failed(Seq<H>, CommandErrorView),
}

impl<H> View for StartStep<H> {
    type V = StartStepView<H>;

    open spec fn view(&self) -> StartStepView<H> {
        match self {
            StartStep::Launch(worker) => StartStepView::Launch(*worker),
            StartStep::Started => StartStepView::Started,
            StartStep::Failed(ended, error) => StartStepView::Failed(ended@, error@),
        }
    }
}

/// How a start went, with what the system said of a failure as plain text.
pub open spec fn outcome_view<H>(outcome: Result<H, String>) -> Result<H, Seq<char>> {
    match outcome {
        Ok(handle) => Ok(handle),
        Err(detail) => Err(detail@),
    }
}

/// The state and the next step after the start of `worker` went as
/// `outcome` says.
///
/// A worker that runs is tracked; after the last one monitoring is on, since
/// `now`. Where a worker cannot be started, the attempt ends with that
/// failure. Where this is not the first worker, no process stays tracked:
/// all are handed back to be ended.
pub open spec fn after_launch<H>(
    state: AppStateView<H>,
    worker: Worker,
    outcome: Result<H, Seq<char>>,
    now: u64,
) -> (AppStateView<H>, StartStepView<H>) {
    match outcome {
        Ok(handle) => {
            let grown = AppStateView {
                python_processes: state.python_processes.push(handle),
                ..state
            };
            match next_worker(worker) {
                Some(next) => (grown, StartStepView::Launch(next)),
                None => (
                    AppStateView { is_monitoring: true, start_time: Some(now), ..grown },
                    StartStepView::Started,
                ),
            }
        },
        Err(detail) => {
            let error = fault_failure(launch_fault(worker), detail);
            if worker == Worker::ArpGateway {
                (state, StartStepView::Failed(Seq::empty(), error))
            } else {
                (
                    AppStateView { python_processes: Seq::empty(), ..state },
                    StartStepView::Failed(state.python_processes, error),
                )
            }
        },
    }
}

/// The state after monitoring was stopped: it does not run, and no process
/// is tracked.
pub open spec fn stopped<H>(state: AppStateView<H>) -> AppStateView<H> {
    AppStateView {
        is_monitoring: false,
        python_processes: Seq::empty(),
        start_time: None,
        ..state
    }
}

/// For how many seconds monitoring has run at `now`: none where it does not
/// run. It is the difference of two readings in whole seconds, which can be
/// one more than the whole seconds that have passed.
pub open spec fn uptime<H>(state: AppStateView<H>, now: u64) -> u64 {
    match state.start_time {
        Some(start) => if state.is_monitoring && now >= start {
            (now - start) as u64
        } else {
            0
        },
        None => 0,
    }
}

/// What a status query answers at `now`. The three parts of monitoring are
/// not told apart: each is reported to run exactly while monitoring runs.
pub open spec fn status_of<H>(state: AppStateView<H>, now: u64) -> MonitoringStatusView {
    MonitoringStatusView {
        is_running: state.is_monitoring,
        arp_spoofing: state.is_monitoring,
        https_proxy: state.is_monitoring,
        dns_capture: state.is_monitoring,
        stealth_mode: true,
        current_profile: state.current_profile,
        uptime: uptime(state, now),
        errors: Seq::empty(),
    }
}

/// The network interface that the workers listen on.
pub fn monitoring_interface(settings: &Settings) -> (r: String)
    ensures
        r@ == interface_of(settings@),
{
    match &settings.network_interface {
        Some(interface) => interface.clone(),
        None => "Wi-Fi".to_owned(),
    }
}

/// How `worker` is invoked to listen on `interface`.
pub fn invoke_worker(worker: Worker, interface: &str) -> (r: Invocation)
    ensures
        r@ == worker_invocation(worker, interface@),
{
    let mut args: Vec<String> = Vec::new();
    assert(texts(args@) =~= Seq::<Seq<char>>::empty());
    match worker {
        Worker::ArpGateway => {
            push_arg(&mut args, "--interface");
            push_arg(&mut args, interface);
            assert(texts(args@) =~= seq!["--interface"@, interface@]);
            Invocation { script: "python/arp/arp_gateway.py".to_owned(), args }
        },
        Worker::HttpsProxy => {
            push_arg(&mut args, "--action");
            push_arg(&mut args, "start");
            assert(texts(args@) =~= seq!["--action"@, "start"@]);
            Invocation { script: "python/https/transparent_proxy.py".to_owned(), args }
        },
        Worker::DnsCapture => {
            push_arg(&mut args, "--interface");
            push_arg(&mut args, interface);
            assert(texts(args@) =~= seq!["--interface"@, interface@]);
            Invocation { script: "python/dns/dns_capture.py".to_owned(), args }
        },
    }
}

/// Begins to start monitoring: refused while it runs, and otherwise the
/// first worker to start. The caller starts it as `invoke_worker` says and
/// reports to `worker_launched`, which names the next.
pub fn start_monitoring<H>(state: &AppState<H>) -> (r: Result<Worker, CommandError>)
    ensures
        match r {
            Ok(worker) => !state@.is_monitoring && worker == Worker::ArpGateway,
            Err(e) => state@.is_monitoring && e@ == failure(
                ErrorKind::AlreadyRunning,
                "Monitoring is already running"@,
            ),
        },
{
    if state.is_monitoring {
        Err(plain_failure(ErrorKind::AlreadyRunning, "Monitoring is already running"))
    } else {
        Ok(Worker::ArpGateway)
    }
}

/// Takes note of how the start of `worker` went, at `now`, and says what is
/// to be done next.
pub fn worker_launched<H>(
    state: &mut AppState<H>,
    worker: Worker,
    outcome: Result<H, String>,
    now: u64,
) -> (r: StartStep<H>)
    ensures
        (final(state)@, r@) == after_launch(old(state)@, worker, outcome_view(outcome), now),
{
    match outcome {
        Ok(handle) => {
            state.python_processes.push(handle);
            match worker {
                Worker::ArpGateway => StartStep::Launch(Worker::HttpsProxy),
                Worker::HttpsProxy => StartStep::Launch(Worker::DnsCapture),
                Worker::DnsCapture => {
                    state.is_monitoring = true;
                    state.start_time = Some(now);
                    StartStep::Started
                },
            }
        },
        Err(detail) => {
            match worker {
                Worker::ArpGateway => StartStep::Failed(
                    Vec::new(),
                    io_failure(Fault::StartArpGateway, detail.as_str()),
                ),
                Worker::HttpsProxy => {
                    let ended = kill_python_processes(&mut state.python_processes);
                    StartStep::Failed(ended, io_failure(Fault::StartHttpsProxy, detail.as_str()))
                },
                Worker::DnsCapture => {
                    let ended = kill_python_processes(&mut state.python_processes);
                    StartStep::Failed(ended, io_failure(Fault::StartDnsCapture, detail.as_str()))
                },
            }
        },
    }
}

/// Stops monitoring, whether it runs or not: no process stays tracked, and
/// all that were are handed to the caller, who ends them.
pub fn stop_monitoring<H>(state: &mut AppState<H>) -> (ended: Vec<H>)
    ensures
        final(state)@ == stopped(old(state)@),
        ended@ == old(state)@.python_processes,
{
    let ended = kill_python_processes(&mut state.python_processes);
    state.is_monitoring = false;
    state.start_time = None;
    ended
}

/// Answers a status query at `now`.
pub fn get_status<H>(state: &AppState<H>, now: u64) -> (r: MonitoringStatus)
    ensures
        r@ == status_of(state@, now),
{
    let uptime = match state.start_time {
        Some(start) => if state.is_monitoring && now >= start {
            now - start
        } else {
            0
        },
        None => 0,
    };
    let errors: Vec<String> = Vec::new();
    assert(texts(errors@) =~= Seq::<Seq<char>>::empty());
    MonitoringStatus {
        is_running: state.is_monitoring,
        arp_spoofing: state.is_monitoring,
        https_proxy: state.is_monitoring,
        dns_capture: state.is_monitoring,
        stealth_mode: true,
        current_profile: state.current_profile.clone(),
        uptime,
        errors,
    }
}

/// How the server that hands out the certificate is started.
pub fn start_cert_server() -> (r: Invocation)
    ensures
        r@ == invocation("cert-installer/server.py"@, Seq::empty()),
{
    let args: Vec<String> = Vec::new();
    assert(texts(args@) =~= Seq::<Seq<char>>::empty());
    Invocation { script: "cert-installer/server.py".to_owned(), args }
}

/// Takes note of how the start of the certificate server went: a server
/// that runs joins the processes of the session, after those that are there.
pub fn cert_server_launched<H>(state: &mut AppState<H>, outcome: Result<H, String>) -> (r: Result<
    String,
    CommandError,
>)
    ensures
        match outcome_view(outcome) {
            Ok(handle) => final(state)@ == (AppStateView {
                python_processes: old(state)@.python_processes.push(handle),
                ..old(state)@
            }) && r is Ok && r->Ok_0@ == "Certificate server started on port 8888"@,
            Err(detail) => final(state)@ == old(state)@ && r is Err && r->Err_0@ == fault_failure(
                Fault::StartCertServer,
                detail,
            ),
        },
{
    match outcome {
        Ok(handle) => {
            state.python_processes.push(handle);
            Ok("Certificate server started on port 8888".to_owned())
        },
        Err(detail) => Err(io_failure(Fault::StartCertServer, detail.as_str())),
    }
}

/// A start is all or nothing. Where a worker other than the first cannot be
/// started, no process is left on the list, every process that was on it is
/// handed back to be ended, and a status query at any later time says that
/// monitoring does not run.
pub proof fn lemma_failed_launch_leaves_nothing<H>(
    state: AppStateView<H>,
    worker: Worker,
    detail: Seq<char>,
    now: u64,
    later: u64,
)
    requires
        !state.is_monitoring,
        worker != Worker::ArpGateway,
    ensures
        after_launch(state, worker, Err(detail), now).0.python_processes.len() == 0,
        !status_of(after_launch(state, worker, Err(detail), now).0, later).is_running,
        status_of(after_launch(state, worker, Err(detail), now).0, later).uptime == 0,
        after_launch(state, worker, Err(detail), now).1 == StartStepView::Failed(
            state.python_processes,
            fault_failure(launch_fault(worker), detail),
        ),
{
}

/// Where the first worker starts and the second does not, the process of
/// the first is handed back to be ended together with all that were there
/// before, the list is empty, and monitoring does not run.
pub proof fn lemma_second_launch_failure<H>(
    state: AppStateView<H>,
    first: H,
    detail: Seq<char>,
    now: u64,
    later: u64,
)
    requires
        !state.is_monitoring,
    ensures
        ({
            let (one, step_one) = after_launch(state, Worker::ArpGateway, Ok(first), now);
            let (two, step_two) = after_launch(one, Worker::HttpsProxy, Err(detail), now);
            &&& step_one == StartStepView::<H>::Launch(Worker::HttpsProxy)
            &&& step_two == StartStepView::Failed(
                state.python_processes.push(first),
                fault_failure(Fault::StartHttpsProxy, detail),
            )
            &&& two.python_processes.len() == 0
            &&& !status_of(two, later).is_running
        }),
{
}

/// Where all three workers start, their processes stand on the list in the
/// order of their start, and monitoring runs since the last of them started.
pub proof fn lemma_full_start<H>(
    state: AppStateView<H>,
    first: H,
    second: H,
    third: H,
    now: u64,
)
    ensures
        ({
            let (one, step_one) = after_launch(state, Worker::ArpGateway, Ok(first), now);
            let (two, step_two) = after_launch(one, Worker::HttpsProxy, Ok(second), now);
            let (three, step_three) = after_launch(two, Worker::DnsCapture, Ok(third), now);
            &&& one.is_monitoring == state.is_monitoring
            &&& two.is_monitoring == state.is_monitoring
            &&& step_one == StartStepView::<H>::Launch(Worker::HttpsProxy)
            &&& step_two == StartStepView::<H>::Launch(Worker::DnsCapture)
            &&& step_three == StartStepView::<H>::Started
            &&& three.is_monitoring
            &&& three.start_time == Some(now)
            &&& three.python_processes == state.python_processes.push(first).push(second).push(
                third,
            )
            &&& status_of(three, now).is_running
        }),
{
}

/// Stopping twice is stopping once: the second stop changes nothing and has
/// no process to end. Stopping what never ran changes nothing either.
pub proof fn lemma_stop_is_idempotent<H>(state: AppStateView<H>)
    ensures
        stopped(stopped(state)) == stopped(state),
        stopped(state).python_processes.len() == 0,
        !state.is_monitoring && state.python_processes.len() == 0 && state.start_time is None
            ==> stopped(state) == state,
{
    if !state.is_monitoring && state.python_processes.len() == 0 && state.start_time is None {
        assert(state.python_processes =~= Seq::<H>::empty());
    }
}

/// After a stop, a status query says that nothing runs, for no time.
pub proof fn lemma_stopped_status<H>(state: AppStateView<H>, now: u64)
    ensures
        !status_of(stopped(state), now).is_running,
        status_of(stopped(state), now).uptime == 0,
        status_of(stopped(state), now).current_profile == state.current_profile,
{
}

/// The flag and the instant of start agree in the beginning, and each step
/// of a start and each stop keeps them so.
pub proof fn lemma_steps_keep_consistency<H>(
    state: AppStateView<H>,
    worker: Worker,
    outcome: Result<H, Seq<char>>,
    now: u64,
)
    requires
        consistent(state),
    ensures
        consistent(after_launch(state, worker, outcome, now).0),
        consistent(stopped(state)),
{
}

} // verus!
