//! The decision half of waiting for a termination request: which kinds of
//! request qualify, and the one informational diagnostic each is answered
//! with. The process layer registers the listeners and suspends; once one
//! fires it asks here what to report.

use vstd::prelude::*;

verus! {

/// A termination request the wait resolves on.
#[derive(Clone, Copy, Debug, PartialEq, Eq, Structural)]
pub enum SignalEvent {
    /// The console interrupt, on platforms with a single user interrupt.
    CtrlC,
    /// The interrupt signal.
    Interrupt,
    /// The terminate signal.
    Terminate,
}

/// The diagnostic announcing which kind of request ended the wait.
pub fn signal_diagnostic(event: SignalEvent) -> (r: &'static str)
    ensures
        event is CtrlC ==> r@ == "Received Ctrl+C, shutting down..."@,
        event is Interrupt ==> r@ == "Received interrupt signal, shutting down..."@,
        event is Terminate ==> r@ == "Received terminate signal, shutting down..."@,
{
    match event {
        SignalEvent::CtrlC => "Received Ctrl+C, shutting down...",
        SignalEvent::Interrupt => "Received interrupt signal, shutting down...",
        SignalEvent::Terminate => "Received terminate signal, shutting down...",
    }
}

} // verus!
