//! The ways in which an operation of the control plane fails.

use vstd::prelude::*;

verus! {

/// What went wrong, by kind.
#[derive(Debug, Clone, Copy, PartialEq, Eq, Structural)]
pub enum ErrorKind {
    /// A worker's executable could not be started.
    Spawn,
    /// A worker ended with a status other than zero.
    WorkerExecution,
    /// A worker printed no line that could hold its result.
    NoJsonOutput,
    /// The line that should hold a worker's result is not JSON.
    JsonParse,
    /// A worker ran and reported that it did not succeed.
    Domain,
    /// Monitoring was asked to start while it runs.
    AlreadyRunning,
    /// The settings file is there and could not be read.
    ConfigRead,
    /// The settings file was read and does not hold settings.
    ConfigParse,
    /// The settings could not be written.
    ConfigWrite,
    /// A query for one record found none.
    NotFound,
    /// A block rule of a type that the blocking worker does not know.
    UnsupportedRuleType,
    /// An action that the stealth worker does not know.
    UnsupportedAction,
    /// The pipe to or from a running worker failed.
    Pipe,
}

/// A failure: its kind, and the one message under which it reaches the caller.
#[derive(Debug, Clone, PartialEq, Eq)]
pub struct CommandError {
    pub kind: ErrorKind,
    pub message: String,
}

/// A failure with its message as plain text.
pub struct CommandErrorView {
    pub kind: ErrorKind,
    pub message: Seq<char>,
}

impl View for CommandError {
    type V = CommandErrorView;

    open spec fn view(&self) -> CommandErrorView {
        CommandErrorView { kind: self.kind, message: self.message@ }
    }
}

/// The failure of `kind` whose message is `message`.
pub open spec fn failure(kind: ErrorKind, message: Seq<char>) -> CommandErrorView {
    CommandErrorView { kind, message }
}

impl CommandError {
    /// A failure of `kind` with `message`.
    pub fn new(kind: ErrorKind, message: String) -> (r: CommandError)
        ensures
            r@ == failure(kind, message@),
    {
        CommandError { kind, message }
    }

    /// A failure of `kind` whose message is `context` followed by `detail`.
    pub fn with_detail(kind: ErrorKind, context: &str, detail: &str) -> (r: CommandError)
        ensures
            r@ == failure(kind, context@ + detail@),
    {
        CommandError { kind, message: crate::text::joined(context, detail) }
    }

    /// The descriptive message under which the failure reaches the caller.
    pub fn to_string(&self) -> (r: String)
        ensures
            r@ == self@.message,
    {
        self.message.clone()
    }
}

/// A step at the edge of the control plane that the system may refuse: a run
/// of a program, a read or a write.
#[derive(Debug, Clone, Copy, PartialEq, Eq, Structural)]
pub enum Fault {
    /// Running a worker script to its end.
    RunScript,
    /// Running the interpreter by itself.
    RunPython,
    /// Starting the gateway-interception worker.
    StartArpGateway,
    /// Starting the transport-interception worker.
    StartHttpsProxy,
    /// Starting the name-resolution capture.
    StartDnsCapture,
    /// Starting the server that hands out the certificate.
    StartCertServer,
    /// Turning a command for a running worker into text.
    SerializeCommand,
    /// Writing a command to a running worker.
    WriteToProcess,
    /// Flushing what was written to a running worker.
    Flush,
    /// Reading a line from a running worker.
    ReadFromProcess,
    /// Reading the settings file.
    ReadSettings,
    /// Reading settings out of the text of the settings file.
    ParseSettings,
    /// Creating the directory of the settings file.
    CreateConfigDir,
    /// Turning settings into text.
    SerializeSettings,
    /// Writing the settings file.
    WriteSettings,
}

/// The kind of failure that a refused step is.
pub open spec fn fault_kind(fault: Fault) -> ErrorKind {
    match fault {
        Fault::RunScript => ErrorKind::Spawn,
        Fault::RunPython => ErrorKind::Spawn,
        Fault::StartArpGateway => ErrorKind::Spawn,
        Fault::StartHttpsProxy => ErrorKind::Spawn,
        Fault::StartDnsCapture => ErrorKind::Spawn,
        Fault::StartCertServer => ErrorKind::Spawn,
        Fault::SerializeCommand => ErrorKind::Pipe,
        Fault::WriteToProcess => ErrorKind::Pipe,
        Fault::Flush => ErrorKind::Pipe,
        Fault::ReadFromProcess => ErrorKind::Pipe,
        Fault::ReadSettings => ErrorKind::ConfigRead,
        Fault::ParseSettings => ErrorKind::ConfigParse,
        Fault::CreateConfigDir => ErrorKind::ConfigWrite,
        Fault::SerializeSettings => ErrorKind::ConfigWrite,
        Fault::WriteSettings => ErrorKind::ConfigWrite,
    }
}

/// How the message of a refused step begins; what the system said of it
/// follows.
pub open spec fn fault_context(fault: Fault) -> Seq<char> {
    match fault {
        Fault::RunScript => "Failed to run Python script: "@,
        Fault::RunPython => "Failed to run Python: "@,
        Fault::StartArpGateway => "Failed to start ARP gateway: "@,
        Fault::StartHttpsProxy => "Failed to start HTTPS proxy: "@,
        Fault::StartDnsCapture => "Failed to start DNS capture: "@,
        Fault::StartCertServer => "Failed to start cert server: "@,
        Fault::SerializeCommand => "Failed to serialize command: "@,
        Fault::WriteToProcess => "Failed to write to process: "@,
        Fault::Flush => "Failed to flush: "@,
        Fault::ReadFromProcess => "Failed to read from process: "@,
        Fault::ReadSettings => "Failed to read settings: "@,
        Fault::ParseSettings => "Failed to parse settings: "@,
        Fault::CreateConfigDir => "Failed to create config dir: "@,
        Fault::SerializeSettings => "Failed to serialize settings: "@,
        Fault::WriteSettings => "Failed to write settings: "@,
    }
}

/// The failure that a refused step is, with what the system said of it.
pub open spec fn fault_failure(fault: Fault, detail: Seq<char>) -> CommandErrorView {
    failure(fault_kind(fault), fault_context(fault) + detail)
}

/// The failure to report where the system refused `fault`, saying `detail`.
pub fn io_failure(fault: Fault, detail: &str) -> (r: CommandError)
    ensures
        r@ == fault_failure(fault, detail@),
{
    match fault {
        Fault::RunScript => CommandError::with_detail(
            ErrorKind::Spawn,
            "Failed to run Python script: ",
            detail,
        ),
        Fault::RunPython => CommandError::with_detail(
            ErrorKind::Spawn,
            "Failed to run Python: ",
            detail,
        ),
        Fault::StartArpGateway => CommandError::with_detail(
            ErrorKind::Spawn,
            "Failed to start ARP gateway: ",
            detail,
        ),
        Fault::StartHttpsProxy => CommandError::with_detail(
            ErrorKind::Spawn,
            "Failed to start HTTPS proxy: ",
            detail,
        ),
        Fault::StartDnsCapture => CommandError::with_detail(
            ErrorKind::Spawn,
            "Failed to start DNS capture: ",
            detail,
        ),
        Fault::StartCertServer => CommandError::with_detail(
            ErrorKind::Spawn,
            "Failed to start cert server: ",
            detail,
        ),
        Fault::SerializeCommand => CommandError::with_detail(
            ErrorKind::Pipe,
            "Failed to serialize command: ",
            detail,
        ),
        Fault::WriteToProcess => CommandError::with_detail(
            ErrorKind::Pipe,
            "Failed to write to process: ",
            detail,
        ),
        Fault::Flush => CommandError::with_detail(ErrorKind::Pipe, "Failed to flush: ", detail),
        Fault::ReadFromProcess => CommandError::with_detail(
            ErrorKind::Pipe,
            "Failed to read from process: ",
            detail,
        ),
        Fault::ReadSettings => CommandError::with_detail(
            ErrorKind::ConfigRead,
            "Failed to read settings: ",
            detail,
        ),
        Fault::ParseSettings => CommandError::with_detail(
            ErrorKind::ConfigParse,
            "Failed to parse settings: ",
            detail,
        ),
        Fault::CreateConfigDir => CommandError::with_detail(
            ErrorKind::ConfigWrite,
            "Failed to create config dir: ",
            detail,
        ),
        Fault::SerializeSettings => CommandError::with_detail(
            ErrorKind::ConfigWrite,
            "Failed to serialize settings: ",
            detail,
        ),
        Fault::WriteSettings => CommandError::with_detail(
            ErrorKind::ConfigWrite,
            "Failed to write settings: ",
            detail,
        ),
    }
}

/// A failure of `kind` whose whole message is `message`.
pub fn plain_failure(kind: ErrorKind, message: &str) -> (r: CommandError)
    ensures
        r@ == failure(kind, message@),
{
    CommandError { kind, message: message.to_owned() }
}

} // verus!
