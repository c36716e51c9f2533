//! The worker programs: where they are, with which arguments they are
//! invoked, and what their output means.

use crate::error::{
    failure, fault_failure, io_failure, plain_failure, CommandError, ErrorKind, Fault,
};
use crate::json::{error_text, json_model, json_parse, json_text, parse_value, write_value};
use crate::text::{
    find_json_line, is_trimmed_from, joined, json_line, str_eq, texts, trimmed,
};
use serde_json::Value;
use vstd::prelude::*;
use vstd::string::StringExecFns;

verus! {

/// One run of a worker script: the script, relative to the project root, and
/// the arguments that follow it on the command line.
#[derive(Debug, Clone, PartialEq, Eq)]
pub struct Invocation {
    pub script: String,
    pub args: Vec<String>,
}

/// An invocation, with its texts as plain sequences.
pub struct InvocationView {
    pub script: Seq<char>,
    pub args: Seq<Seq<char>>,
}

impl View for Invocation {
    type V = InvocationView;

    open spec fn view(&self) -> InvocationView {
        InvocationView { script: self.script@, args: texts(self.args@) }
    }
}

/// The invocation of `script` with `args`.
pub open spec fn invocation(script: Seq<char>, args: Seq<Seq<char>>) -> InvocationView {
    InvocationView { script, args }
}

/// Appends one argument.
pub fn push_arg(args: &mut Vec<String>, arg: &str)
    ensures
        texts(final(args)@) == texts(old(args)@).push(arg@),
{
    args.push(arg.to_owned());
    assert(texts(args@) =~= texts(old(args)@).push(arg@));
}

/// The directories below the project root, outermost first, and the file in
/// them, where the interpreter of the project's own environment is installed.
pub fn venv_python_location() -> (r: Vec<String>)
    ensures
        texts(r@) == seq!["network_monitor_env"@, "Scripts"@, "python.exe"@],
{
    let mut r: Vec<String> = Vec::new();
    assert(texts(r@) =~= Seq::<Seq<char>>::empty());
    push_arg(&mut r, "network_monitor_env");
    push_arg(&mut r, "Scripts");
    push_arg(&mut r, "python.exe");
    assert(texts(r@) =~= seq!["network_monitor_env"@, "Scripts"@, "python.exe"@]);
    r
}

/// The interpreter that runs the workers: the one at `venv_python`, the path
/// of `venv_python_location` below the project root, where it exists, and
/// otherwise whatever the system finds under the name `python`.
pub fn get_python_path(venv_python: String, venv_exists: bool) -> (r: String)
    ensures
        r@ == if venv_exists {
            venv_python@
        } else {
            "python"@
        },
{
    if venv_exists {
        venv_python
    } else {
        "python".to_owned()
    }
}

/// The flags and values of `pairs`, each flag followed by its value.
pub open spec fn pair_args(pairs: Seq<(&str, &str)>) -> Seq<Seq<char>>
    decreases pairs.len(),
{
    if pairs.len() == 0 {
        Seq::empty()
    } else {
        pair_args(pairs.drop_last()).push(pairs.last().0@).push(pairs.last().1@)
    }
}

/// The arguments of an action-tagged invocation: the action first, then its
/// parameters.
pub open spec fn action_args(action: Seq<char>, pairs: Seq<(&str, &str)>) -> Seq<Seq<char>> {
    seq!["--action"@, action] + pair_args(pairs)
}

/// Shapes the invocation of `script` for `action` with the parameters `args`.
pub fn action_invocation(script: &str, action: &str, args: &[(&str, &str)]) -> (r: Invocation)
    ensures
        r@ == invocation(script@, action_args(action@, args@)),
{
    let mut out: Vec<String> = Vec::new();
    assert(texts(out@) =~= Seq::<Seq<char>>::empty());
    push_arg(&mut out, "--action");
    push_arg(&mut out, action);
    assert(texts(out@) =~= seq!["--action"@, action@] + pair_args(args@.take(0)));
    let mut i: usize = 0;
    while i < args.len()
        invariant
            i <= args.len(),
            texts(out@) == seq!["--action"@, action@] + pair_args(args@.take(i as int)),
        decreases args.len() - i,
    {
        let pair = args[i];
        push_arg(&mut out, pair.0);
        push_arg(&mut out, pair.1);
        proof {
            let next = args@.take(i + 1);
            assert(next.drop_last() =~= args@.take(i as int));
            assert(next.last() == args@[i as int]);
            assert(texts(out@) =~= seq!["--action"@, action@] + pair_args(next));
        }
        i += 1;
    }
    assert(args@.take(args.len() as int) =~= args@);
    Invocation { script: script.to_owned(), args: out }
}

/// The texts of a run of borrowed strings.
pub open spec fn strs(args: Seq<&str>) -> Seq<Seq<char>> {
    args.map_values(|a: &str| a@)
}

/// The invocation of `script` with `args`.
pub fn script_invocation(script: &str, args: &[&str]) -> (r: Invocation)
    ensures
        r@ == invocation(script@, strs(args@)),
{
    let mut out: Vec<String> = Vec::new();
    let mut i: usize = 0;
    while i < args.len()
        invariant
            i <= args.len(),
            out.len() == i,
            forall|k: int| 0 <= k < i ==> (#[trigger] out@[k])@ == args@[k]@,
        decreases args.len() - i,
    {
        out.push(args[i].to_owned());
        i += 1;
    }
    assert(texts(out@) =~= strs(args@));
    Invocation { script: script.to_owned(), args: out }
}

/// The arguments of an action without parameters.
pub proof fn lemma_action_alone(action: Seq<char>)
    ensures
        action_args(action, Seq::empty()) == seq!["--action"@, action],
{
    assert(action_args(action, Seq::empty()) =~= seq!["--action"@, action]);
}

/// The arguments of an action with one parameter.
pub proof fn lemma_action_with_one(action: Seq<char>, first: (&str, &str))
    ensures
        action_args(action, seq![first]) == seq!["--action"@, action, first.0@, first.1@],
{
    let pairs = seq![first];
    assert(pairs.drop_last() =~= Seq::<(&str, &str)>::empty());
    assert(pair_args(pairs.drop_last()) =~= Seq::<Seq<char>>::empty());
    assert(action_args(action, pairs) =~= seq!["--action"@, action, first.0@, first.1@]);
}

/// The arguments of an action with two parameters.
pub proof fn lemma_action_with_two(action: Seq<char>, first: (&str, &str), second: (&str, &str))
    ensures
        action_args(action, seq![first, second]) == seq![
            "--action"@,
            action,
            first.0@,
            first.1@,
            second.0@,
            second.1@,
        ],
{
    let pairs = seq![first, second];
    assert(pairs.drop_last() =~= seq![first]);
    lemma_action_with_one(action, first);
    assert(pair_args(seq![first]) =~= action_args(action, seq![first]).skip(2));
    assert(action_args(action, pairs) =~= seq![
        "--action"@,
        action,
        first.0@,
        first.1@,
        second.0@,
        second.1@,
    ]);
}

/// The invocation of the storage worker for `action`.
pub fn query_database(action: &str, args: &[(&str, &str)]) -> (r: Invocation)
    ensures
        r@ == invocation("python/database/db_manager.py"@, action_args(action@, args@)),
{
    action_invocation("python/database/db_manager.py", action, args)
}

/// The invocation of the blocking worker for `action`.
pub fn run_blocking_command(action: &str, args: &[(&str, &str)]) -> (r: Invocation)
    ensures
        r@ == invocation("python/blocking/blocker.py"@, action_args(action@, args@)),
{
    action_invocation("python/blocking/blocker.py", action, args)
}

/// The invocation of the alert worker for `action`.
pub fn run_alert_command(action: &str, args: &[(&str, &str)]) -> (r: Invocation)
    ensures
        r@ == invocation("python/alerts/alert_engine.py"@, action_args(action@, args@)),
{
    action_invocation("python/alerts/alert_engine.py", action, args)
}

/// The message about a line that should hold JSON and does not: what the
/// parser said of it, then the line.
pub open spec fn unparsed_output_message(detail: Seq<char>, line: Seq<char>) -> Seq<char> {
    "Failed to parse JSON: "@ + detail + " - Output: "@ + line
}

/// What a finished run of a worker comes to, once its result line `line` has
/// been parsed: the document, or the failure that tells what the parser said
/// and of which line.
pub fn parsed_output(parsed: Result<Value, String>, line: &str) -> (r: Result<
    Value,
    CommandError,
>)
    ensures
        match parsed {
            Ok(v) => r == Ok::<Value, CommandError>(v),
            Err(detail) => r is Err && r->Err_0@ == failure(
                ErrorKind::JsonParse,
                unparsed_output_message(detail@, line@),
            ),
        },
{
    match parsed {
        Ok(v) => Ok(v),
        Err(detail) => {
            let mut message = joined("Failed to parse JSON: ", detail.as_str());
            message.append(" - Output: ");
            message.append(line);
            Err(CommandError::new(ErrorKind::JsonParse, message))
        },
    }
}

/// What a finished run of a worker comes to.
///
/// A worker that ended with a status other than zero has failed, whatever it
/// printed, and the failure carries what it wrote to standard error. Otherwise
/// its result is the last line of its standard output that may hold a JSON
/// document; what it printed around that line is of no account. Without such
/// a line, and with one that is no JSON, the run has failed too.
pub fn run_python_script(success: bool, stdout: &str, stderr: &str) -> (r: Result<
    Value,
    CommandError,
>)
    ensures
        match r {
            Ok(v) => success && json_line(stdout@) is Some && json_parse(json_line(stdout@)->0)
                == Some(json_model(v)),
            Err(e) => if !success {
                e@ == failure(ErrorKind::WorkerExecution, "Python script failed: "@ + stderr@)
            } else if json_line(stdout@) is None {
                e@ == failure(ErrorKind::NoJsonOutput, "No JSON output from Python script"@)
            } else {
                json_parse(json_line(stdout@)->0) is None && exists|detail: Seq<char>|
                    e@ == failure(
                        ErrorKind::JsonParse,
                        unparsed_output_message(detail, json_line(stdout@)->0),
                    )
            },
        },
{
    if !success {
        return Err(
            CommandError::with_detail(ErrorKind::WorkerExecution, "Python script failed: ", stderr),
        );
    }
    let line = match find_json_line(stdout) {
        Some(line) => line,
        None => {
            return Err(
                plain_failure(ErrorKind::NoJsonOutput, "No JSON output from Python script"),
            );
        },
    };
    let parsed = match parse_value(line) {
        Ok(v) => Ok(v),
        Err(e) => Err(error_text(&e)),
    };
    parsed_output(parsed, line)
}

/// What stands after the interface in a call of the stealth worker, by
/// action: a profile to apply or a random one, a restore, or a show. Nothing
/// for an action that the worker does not know.
pub open spec fn stealth_action_args(action: Seq<char>, profile: Option<Seq<char>>) -> Option<
    Seq<Seq<char>>,
> {
    if action == "apply"@ {
        match profile {
            Some(p) => Some(seq!["--profile"@, p]),
            None => Some(seq!["--random"@]),
        }
    } else if action == "restore"@ {
        Some(seq!["--restore"@])
    } else if action == "show"@ {
        Some(seq!["--show"@])
    } else {
        None
    }
}

/// The view of an optional borrowed text.
pub open spec fn opt_str_view(text: Option<&str>) -> Option<Seq<char>> {
    match text {
        Some(t) => Some(t@),
        None => None,
    }
}

/// The invocation of the stealth worker on `interface` for `action`, or the
/// failure for an action that it does not know.
pub fn run_stealth_command(action: &str, interface: &str, profile: Option<&str>) -> (r: Result<
    Invocation,
    CommandError,
>)
    ensures
        match r {
            Ok(inv) => stealth_action_args(action@, opt_str_view(profile)) is Some && inv@
                == invocation(
                "python/stealth/mac_changer.py"@,
                seq!["--interface"@, interface@] + stealth_action_args(
                    action@,
                    opt_str_view(profile),
                )->0,
            ),
            Err(e) => stealth_action_args(action@, opt_str_view(profile)) is None && e@ == failure(
                ErrorKind::UnsupportedAction,
                "Unknown stealth action: "@ + action@,
            ),
        },
{
    let mut args: Vec<String> = Vec::new();
    assert(texts(args@) =~= Seq::<Seq<char>>::empty());
    push_arg(&mut args, "--interface");
    push_arg(&mut args, interface);
    if str_eq(action, "apply") {
        match profile {
            Some(p) => {
                push_arg(&mut args, "--profile");
                push_arg(&mut args, p);
                assert(texts(args@) =~= seq!["--interface"@, interface@] + seq!["--profile"@, p@]);
            },
            None => {
                push_arg(&mut args, "--random");
                assert(texts(args@) =~= seq!["--interface"@, interface@] + seq!["--random"@]);
            },
        }
    } else if str_eq(action, "restore") {
        push_arg(&mut args, "--restore");
        assert(texts(args@) =~= seq!["--interface"@, interface@] + seq!["--restore"@]);
    } else if str_eq(action, "show") {
        push_arg(&mut args, "--show");
        assert(texts(args@) =~= seq!["--interface"@, interface@] + seq!["--show"@]);
    } else {
        return Err(
            CommandError::with_detail(
                ErrorKind::UnsupportedAction,
                "Unknown stealth action: ",
                action,
            ),
        );
    }
    Ok(Invocation { script: "python/stealth/mac_changer.py".to_owned(), args })
}

/// The message about a line of a running worker that is no JSON: what the
/// parser said of it.
pub fn read_line(parsed: Result<Value, String>) -> (r: Result<Value, CommandError>)
    ensures
        match parsed {
            Ok(v) => r == Ok::<Value, CommandError>(v),
            Err(detail) => r is Err && r->Err_0@ == failure(
                ErrorKind::JsonParse,
                "Failed to parse JSON: "@ + detail@,
            ),
        },
{
    match parsed {
        Ok(v) => Ok(v),
        Err(detail) => Err(
            CommandError::with_detail(
                ErrorKind::JsonParse,
                "Failed to parse JSON: ",
                detail.as_str(),
            ),
        ),
    }
}

/// Reads what a running worker answered: `line` is one line of its standard
/// output, and holds one JSON document.
pub fn read_process_output(line: &str) -> (r: Result<Value, CommandError>)
    ensures
        match r {
            Ok(v) => json_parse(line@) == Some(json_model(v)),
            Err(e) => json_parse(line@) is None && exists|detail: Seq<char>|
                e@ == failure(ErrorKind::JsonParse, "Failed to parse JSON: "@ + detail),
        },
{
    let parsed = match parse_value(line) {
        Ok(v) => Ok(v),
        Err(e) => Err(error_text(&e)),
    };
    read_line(parsed)
}

/// Takes every tracked process off the list, in the order in which they were
/// started, and hands them to the caller, who ends them.
pub fn kill_python_processes<H>(processes: &mut Vec<H>) -> (r: Vec<H>)
    ensures
        r@ == old(processes)@,
        final(processes)@ == Seq::<H>::empty(),
{
    let mut ended: Vec<H> = Vec::new();
    ended.append(processes);
    assert(ended@ =~= old(processes)@);
    ended
}

/// The line that carries a command to a running worker, once the command
/// has been written as text: the text, ended by a line feed.
pub fn framed_command(written: Result<String, String>) -> (r: Result<String, CommandError>)
    ensures
        match written {
            Ok(text) => r is Ok && r->Ok_0@ == text@ + "\n"@,
            Err(detail) => r is Err && r->Err_0@ == fault_failure(
                Fault::SerializeCommand,
                detail@,
            ),
        },
{
    match written {
        Ok(text) => {
            let mut line = text;
            line.append("\n");
            Ok(line)
        },
        Err(detail) => Err(io_failure(Fault::SerializeCommand, detail.as_str())),
    }
}

/// The line that carries `command` to a running worker: one JSON document
/// and a line feed. The caller writes it to the worker's standard input and
/// flushes.
pub fn send_command_to_process(command: &Value) -> (r: Result<String, CommandError>)
    ensures
        match r {
            Ok(line) => json_text(*command) is Some && line@ == json_text(*command)->0 + "\n"@,
            Err(e) => json_text(*command) is None && exists|detail: Seq<char>|
                e@ == fault_failure(Fault::SerializeCommand, detail),
        },
{
    let written = match write_value(command) {
        Ok(text) => Ok(text),
        Err(e) => Err(error_text(&e)),
    };
    framed_command(written)
}

/// What a run of the interpreter that was asked for its version comes to:
/// the version as it printed it, without the white space around it, or a
/// failure where it ended with a status other than zero.
pub fn check_python(success: bool, stdout: &str) -> (r: Result<String, CommandError>)
    ensures
        match r {
            Ok(version) => success && is_trimmed_from(version@, stdout@),
            Err(e) => !success && e@ == failure(
                ErrorKind::WorkerExecution,
                "Python not available"@,
            ),
        },
{
    if success {
        Ok(trimmed(stdout).to_owned())
    } else {
        Err(plain_failure(ErrorKind::WorkerExecution, "Python not available"))
    }
}

} // verus!
