//! What the host reports at its two lifecycle moments: when it is ready it
//! starts the worker, and when its window is destroyed it stops the worker
//! and waits for that to complete. Neither outcome aborts the host.

use vstd::prelude::*;
use crate::pump::{LogRecord, Sink};

verus! {

/// The record of a start made when the host became ready.
pub open spec fn startup_record_of(r: Result<Seq<char>, Seq<char>>) -> (Sink, Seq<char>) {
    match r {
        Ok(m) => (Sink::Info, m),
        Err(e) => (Sink::Diagnostic, "Failed to start API server: "@ + e),
    }
}

/// The record of a stop made while the host shuts down.
pub open spec fn shutdown_record_of(r: Result<Seq<char>, Seq<char>>) -> (Sink, Seq<char>) {
    match r {
        Ok(m) => (Sink::Info, m),
        Err(e) => (Sink::Diagnostic, "Error stopping API server: "@ + e),
    }
}

/// Reports the reply of the start made when the host became ready.
pub fn startup_record(r: &Result<String, String>) -> (rec: LogRecord)
    ensures
        rec@ == startup_record_of(crate::supervisor::reply_view(*r)),
{
    match r {
        Ok(m) => LogRecord { sink: Sink::Info, text: m.clone() },
        Err(e) => {
            let mut t = String::from_str("Failed to start API server: ");
            t.append(e.as_str());
            LogRecord { sink: Sink::Diagnostic, text: t }
        },
    }
}

/// Reports the reply of the stop made while the host shuts down.
pub fn shutdown_record(r: &Result<String, String>) -> (rec: LogRecord)
    ensures
        rec@ == shutdown_record_of(crate::supervisor::reply_view(*r)),
{
    match r {
        Ok(m) => LogRecord { sink: Sink::Info, text: m.clone() },
        Err(e) => {
            let mut t = String::from_str("Error stopping API server: ");
            t.append(e.as_str());
            LogRecord { sink: Sink::Diagnostic, text: t }
        },
    }
}

} // verus!
