//! Process-wide append-only error log.
//!
//! Background receiver tasks cannot hand a failure to a caller that is not
//! currently waiting on them, so every detected failure is appended here
//! and the next synchronous entry point fails when the log is non-empty,
//! surfacing the oldest recorded message.

use vstd::prelude::*;

verus! {

/// One recorded failure: a message and an optional context tag naming the
/// operation that observed it.
pub struct LogEntry {
    pub message: String,
    pub context: Option<String>,
}

/// Append-only list of recorded failures, shared by every session.
/// Entries are only appended, never removed individually.
pub struct ErrorLog {
    pub entries: Vec<LogEntry>,
}

impl ErrorLog {
    /// The recorded messages, oldest first.
    pub open spec fn messages(self) -> Seq<Seq<char>> {
        self.entries@.map_values(|e: LogEntry| e.message@)
    }

    pub open spec fn len(self) -> nat {
        self.entries@.len()
    }

    pub open spec fn is_empty(self) -> bool {
        self.entries@.len() == 0
    }

    pub fn new() -> (r: ErrorLog)
        ensures
            r.is_empty(),
    {
        ErrorLog { entries: Vec::new() }
    }

    /// Record one failure, appending it after every earlier entry.
    pub fn report_error(&mut self, message: String, context: Option<String>)
        ensures
            final(self).messages() == old(self).messages().push(message@),
            final(self).len() == old(self).len() + 1,
    {
        let ghost prior = self.entries@;
        self.entries.push(LogEntry { message, context });
        proof {
            assert(final(self).messages() =~= old(self).messages().push(
                self.entries@[prior.len() as int].message@,
            ));
        }
    }

    /// Fail when any failure has been recorded, surfacing the oldest
    /// message; succeed and change nothing when the log is empty.
    pub fn check_error(&self) -> (r: Result<(), String>)
        ensures
            r is Ok <==> self.is_empty(),
            r is Err ==> r->Err_0@ == self.messages()[0],
    {
        if self.entries.len() == 0 {
            Ok(())
        } else {
            Err(self.entries[0].message.clone())
        }
    }
}

} // verus!
