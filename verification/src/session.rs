//! Driver-session state: whether an error has been reported so far.
//!
//! This is deliberately a value the driver threads through its loop, not
//! process-wide state: each run-one-line call reports its result explicitly,
//! and an interactive session clears the flag between lines.

use vstd::prelude::*;

verus! {

/// A driver session's error flag.
pub struct Session {
    flag: bool,
}

impl Session {
    /// Whether the session has seen an error, as contracts speak of it.
    pub closed spec fn flagged(&self) -> bool {
        self.flag
    }

    /// A fresh session: no error reported yet.
    pub fn new() -> (r: Session)
        ensures
            !r.flagged(),
    {
        Session { flag: false }
    }

    /// Records that an error has been reported.
    pub fn note_error(&mut self)
        ensures
            final(self).flagged(),
    {
        self.flag = true;
    }

    /// Whether an error has been reported.
    pub fn had_error(&self) -> (r: bool)
        ensures
            r == self.flagged(),
    {
        self.flag
    }

    /// Clears the error flag, as the prompt loop does between lines.
    pub fn reset(&mut self)
        ensures
            !final(self).flagged(),
    {
        self.flag = false;
    }
}

/// Whether an error has been reported in this session.
pub fn had_error(session: &Session) -> (r: bool)
    ensures
        r == session.flagged(),
{
    session.had_error()
}

/// Clears a session's error flag.
pub fn reset(session: &mut Session)
    ensures
        !final(session).flagged(),
{
    session.reset()
}

} // verus!
