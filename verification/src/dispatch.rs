//! The dispatch decision: which external action an authenticated event calls
//! for. Running the handler process itself is I/O and lives outside this
//! crate; here the unit of work and the action it maps to are pinned down.

use vstd::prelude::*;
use vstd::string::StringExecFns;

use crate::common::EventType;

verus! {

/// An ephemeral unit of work made for one authenticated request: the provider
/// prefix naming the handler script, the classified event kind, and the raw
/// payload the handler is to read on its standard input.
pub struct DispatchTask {
    pub prefix: String,
    pub event_type: EventType,
    pub payload: Vec<u8>,
}

/// What a dispatch task asks of its surroundings: start the named handler
/// script and feed it the payload, or only log a fixed line.
pub enum DispatchAction {
    RunScript(String),
    LogPing,
    LogNothing,
}

/// The handler script a provider prefix names.
pub open spec fn script_name_spec(prefix: Seq<char>) -> Seq<char> {
    "./"@ + prefix + "-package.sh"@
}

/// Build the handler script name for a provider prefix.
pub fn script_name(prefix: &str) -> (r: String)
    ensures
        r@ == script_name_spec(prefix@),
{
    let mut s = String::from_str("./");
    s.append(prefix);
    s.append("-package.sh");
    s
}

/// The action a task calls for: `Package` and `Tag` events run the handler
/// script, `Ping` is acknowledged in the log, everything else is logged as
/// nothing to do.
pub open spec fn plan_matches(t: DispatchTask, a: DispatchAction) -> bool {
    match t.event_type {
        EventType::Package | EventType::Tag => a matches DispatchAction::RunScript(p) && p@
            == script_name_spec(t.prefix@),
        EventType::Ping => a is LogPing,
        _ => a is LogNothing,
    }
}

/// Decide the action for a dispatch task.
pub fn dispatch_plan(task: &DispatchTask) -> (a: DispatchAction)
    ensures
        plan_matches(*task, a),
{
    match task.event_type {
        EventType::Package | EventType::Tag => DispatchAction::RunScript(
            script_name(task.prefix.as_str()),
        ),
        EventType::Ping => DispatchAction::LogPing,
        _ => DispatchAction::LogNothing,
    }
}

impl DispatchAction {
    /// The fixed log line for this action; for a script run it is the line's
    /// prefix, completed by the process output.
    pub fn log_message(&self) -> (m: &'static str)
        ensures
            match self {
                DispatchAction::RunScript(_) => m@ == "Package event received: "@,
                DispatchAction::LogPing => m@ == "Ping event received"@,
                DispatchAction::LogNothing => m@ == "Nothing to do unknown event"@,
            },
    {
        match self {
            DispatchAction::RunScript(_) => "Package event received: ",
            DispatchAction::LogPing => "Ping event received",
            DispatchAction::LogNothing => "Nothing to do unknown event",
        }
    }
}

} // verus!
