//! Fail-fast adapters as decisions: a fallible outcome either passes its
//! value through unchanged or directs the process layer to stop with status
//! 1 after one error diagnostic combining the caller's context message and
//! the rendered failure.

use vstd::prelude::*;
use vstd::string::StringExecFns;

verus! {

/// Diagnostic for a failed operation: the context message, then the failure.
pub open spec fn failure_diagnostic(msg: Seq<char>, err: Seq<char>) -> Seq<char> {
    msg + ": "@ + err
}

/// What a fail-fast adapter decides.
#[derive(Debug)]
pub enum ExitDecision<V> {
    /// The operation succeeded: its value, unchanged, with no diagnostic.
    Proceed { value: V },
    /// It failed: the process is to stop with this status, after one error
    /// diagnostic.
    Terminate { status: u8, diagnostic: String },
}

/// Decides the fail-fast path for a fallible operation, the error already
/// rendered as text by the caller: a success passes through unchanged; a
/// failure means a diagnostic holding `msg` and the failure text, and
/// process exit with status 1.
pub fn exit_on_error<V>(res: Result<V, String>, msg: &str) -> (r: ExitDecision<V>)
    ensures
        res matches Ok(v) ==> (r matches ExitDecision::Proceed { value } && value == v),
        res matches Err(e) ==> (r matches ExitDecision::Terminate { status, diagnostic } && status
            == 1 && diagnostic@ == failure_diagnostic(msg@, e@)),
{
    match res {
        Ok(v) => ExitDecision::Proceed { value: v },
        Err(e) => {
            let mut diagnostic = msg.to_owned();
            diagnostic.append(": ");
            diagnostic.append(e.as_str());
            ExitDecision::Terminate { status: 1, diagnostic }
        },
    }
}

} // verus!
