//! What the control plane remembers between requests.

use vstd::prelude::*;

verus! {

/// The state of one session: whether monitoring runs and since when, the
/// processes that were started and not yet ended, in the order of their
/// start, and the stealth profile in use.
///
/// `H` is whatever the caller holds of a running process. Instants are whole
/// seconds on a clock of the caller's that never goes back. A span between
/// two instants is therefore the difference of two readings, each cut to
/// whole seconds: it can be one second more than the whole seconds that have
/// passed between them.
#[derive(Debug)]
pub struct AppState<H> {
    pub is_monitoring: bool,
    pub python_processes: Vec<H>,
    pub current_profile: String,
    pub start_time: Option<u64>,
}

/// The state of a session, with its list and its text as plain sequences.
pub struct AppStateView<H> {
    pub is_monitoring: bool,
    pub python_processes: Seq<H>,
    pub current_profile: Seq<char>,
    pub start_time: Option<u64>,
}

impl<H> View for AppState<H> {
    type V = AppStateView<H>;

    open spec fn view(&self) -> AppStateView<H> {
        AppStateView {
            is_monitoring: self.is_monitoring,
            python_processes: self.python_processes@,
            current_profile: self.current_profile@,
            start_time: self.start_time,
        }
    }
}

/// The state in which a session begins: nothing runs, nothing is tracked,
/// and the profile is the printer's.
pub open spec fn initial_state<H>() -> AppStateView<H> {
    AppStateView {
        is_monitoring: false,
        python_processes: Seq::empty(),
        current_profile: "hp_printer"@,
        start_time: None,
    }
}

/// Whether the flag and the instant agree: there is an instant of start
/// exactly while monitoring runs.
pub open spec fn consistent<H>(state: AppStateView<H>) -> bool {
    state.is_monitoring == state.start_time.is_some()
}

impl<H> AppState<H> {
    /// The state in which a session begins.
    pub fn new() -> (r: AppState<H>)
        ensures
            r@ == initial_state::<H>(),
            consistent(r@),
    {
        AppState {
            is_monitoring: false,
            python_processes: Vec::new(),
            current_profile: "hp_printer".to_owned(),
            start_time: None,
        }
    }
}

} // verus!
