//! The diagnostic sink that receives unconsumed warnings.
//!
//! Whenever the library discards a warning on a caller's behalf — through
//! [`Completion::log`](crate::completion::Completion::log), through
//! [`Completion::with_status`](crate::completion::Completion::with_status)
//! when the stored warning is spilled, or when a failed teardown release has
//! no owner left to report to — exactly one record is appended here, never
//! duplicated and never dropped. The embedding owns the sink and decides
//! what to do with the records.

use vstd::prelude::*;

use crate::status::Status;

verus! {

/// An ordered record of every status routed to diagnostics.
pub struct DiagnosticSink {
    records: Vec<Status>,
}

impl View for DiagnosticSink {
    type V = Seq<Status>;

    closed spec fn view(&self) -> Seq<Status> {
        self.records@
    }
}

impl DiagnosticSink {
    /// An empty sink: no diagnostic has been emitted yet.
    pub fn new() -> (r: DiagnosticSink)
        ensures
            r@ == Seq::<Status>::empty(),
    {
        DiagnosticSink { records: Vec::new() }
    }

    /// Append one diagnostic record for `status`.
    pub fn emit(&mut self, status: Status)
        ensures
            final(self)@ == old(self)@.push(status),
    {
        self.records.push(status);
    }

    /// The records emitted so far, oldest first.
    pub fn records(&self) -> (r: &Vec<Status>)
        ensures
            r@ == self@,
    {
        &self.records
    }
}

} // verus!
