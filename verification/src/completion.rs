//! The completion model: a non-error status paired with a payload.
//!
//! Every firmware call returns a raw [`Status`]. The wrapper layer classifies
//! it at once: an error-class status becomes the `Err` side of a `Result`,
//! with no payload constructed; success or warning becomes a [`Completion`]
//! holding both the status and the payload. Collapsing the three-valued
//! completion code to a boolean would silently discard operationally
//! meaningful warnings, so a warning stays inspectable as data, and a caller
//! must say explicitly — through [`Completion::ignore_warning`],
//! [`Completion::log`] or [`Completion::unwrap`] — when it chooses to
//! discard one.

use vstd::prelude::*;

use crate::diag::DiagnosticSink;
use crate::status::Status;

verus! {

/// A status known not to be an error, paired with the payload of the
/// operation that produced it.
///
/// The type can never hold an error-class status: construction demands a
/// non-error code, so a payload can never be read out of a failed operation.
#[must_use]
#[derive(Debug, PartialEq)]
pub struct Completion<T> {
    status: Status,
    result: T,
}

impl<T: Clone> Clone for Completion<T> {
    /// Cloning keeps the stored status; the payload is cloned by `T`.
    fn clone(&self) -> (r: Self)
        ensures
            r.spec_status() == self.spec_status(),
    {
        proof {
            use_type_invariant(&*self);
        }
        Completion { status: self.status, result: self.result.clone() }
    }
}

impl<T> Completion<T> {
    /// The completion value holding status `status` and payload `result`.
    pub closed spec fn spec_mk(status: Status, result: T) -> Completion<T> {
        Completion { status, result }
    }

    /// The stored status.
    pub closed spec fn spec_status(self) -> Status {
        self.status
    }

    /// The stored payload.
    pub closed spec fn spec_value(self) -> T {
        self.result
    }

    #[verifier::type_invariant]
    spec fn inv(self) -> bool {
        !self.status.spec_is_error()
    }

    /// Build a completion from a non-error status and a function result.
    ///
    /// Handing an error-class status to this constructor is a contract
    /// violation of the caller, not a firmware condition, and is ruled out
    /// up front: no completion value ever exists for an error status.
    pub fn new(status: Status, result: T) -> (r: Self)
        requires
            !status.spec_is_error(),
        ensures
            r == Self::spec_mk(status, result),
            r.spec_status() == status,
            r.spec_value() == result,
    {
        Self { status, result }
    }

    /// Extract the status of this completion. It is never an error.
    pub fn status(&self) -> (r: Status)
        ensures
            r == self.spec_status(),
            !r.spec_is_error(),
    {
        proof {
            use_type_invariant(&*self);
        }
        self.status
    }

    /// Split this completion into its inner status and result data.
    pub fn split(self) -> (r: (Status, T))
        ensures
            r.0 == self.spec_status(),
            r.1 == self.spec_value(),
            !r.0.spec_is_error(),
    {
        proof {
            use_type_invariant(&self);
        }
        (self.status, self.result)
    }

    /// Disregard any warning and return the stored result.
    pub fn ignore_warning(self) -> (r: T)
        ensures
            r == self.spec_value(),
    {
        self.result
    }

    /// Access the inner value, routing the status to the diagnostic sink
    /// first if it is not exactly success.
    pub fn log(self, sink: &mut DiagnosticSink) -> (r: T)
        ensures
            r == self.spec_value(),
            self.spec_status().spec_is_success() ==> final(sink)@ == old(sink)@,
            !self.spec_status().spec_is_success() ==> final(sink)@ == old(sink)@.push(
                self.spec_status(),
            ),
    {
        if !self.status.is_success() {
            sink.emit(self.status);
        }
        self.result
    }

    /// Assume that no warning occurred and take the payload.
    ///
    /// Calling this on a completion that carries a warning is an explicit
    /// refusal to swallow the warning silently, so that input is ruled out
    /// by contract; on exact success the payload comes back with no side
    /// effect.
    pub fn unwrap(self) -> (r: T)
        requires
            self.spec_status().spec_is_success(),
        ensures
            r == self.spec_value(),
    {
        self.result
    }

    /// Assume that no warning occurred and take the payload; `_msg` is the
    /// diagnostic a caller would attach to a violation of that assumption.
    pub fn expect(self, _msg: &str) -> (r: T)
        requires
            self.spec_status().spec_is_success(),
        ensures
            r == self.spec_value(),
    {
        self.result
    }

    /// Transform the inner value without unwrapping the completion.
    ///
    /// The status is left exactly as it was: mapping the payload can never
    /// turn a warning into success or success into a warning.
    pub fn map<U, F: FnOnce(T) -> U>(self, f: F) -> (r: Completion<U>)
        requires
            call_requires(f, (self.spec_value(),)),
        ensures
            r.spec_status() == self.spec_status(),
            call_ensures(f, (self.spec_value(),), r.spec_value()),
    {
        proof {
            use_type_invariant(&self);
        }
        let Completion { status, result } = self;
        Completion { status, result: f(result) }
    }

    /// Merge this completion with a success or warning status.
    ///
    /// Merging success changes nothing. Merging a warning evicts the stored
    /// status into the diagnostic sink — this type has storage for only one
    /// warning — and the merged status takes its place. Merging an error is
    /// a contract violation of the call site and is ruled out up front.
    pub fn with_status(self, extra_status: Status, sink: &mut DiagnosticSink) -> (r: Self)
        requires
            !extra_status.spec_is_error(),
        ensures
            extra_status.spec_is_success() ==> r == self && final(sink)@ == old(sink)@,
            !extra_status.spec_is_success() ==> {
                &&& r.spec_status() == extra_status
                &&& r.spec_value() == self.spec_value()
                &&& self.spec_status().spec_is_success() ==> final(sink)@ == old(sink)@
                &&& !self.spec_status().spec_is_success() ==> final(sink)@ == old(sink)@.push(
                    self.spec_status(),
                )
            },
    {
        if extra_status.is_success() {
            self
        } else {
            let value = self.log(sink);
            Completion::new(extra_status, value)
        }
    }
}

/// Building a completion from a non-error status `s` and a payload `v` and
/// splitting it again yields back exactly `s` and `v`.
pub proof fn lemma_build_split_round_trip<T>(s: Status, v: T)
    requires
        !s.spec_is_error(),
    ensures
        Completion::spec_mk(s, v).spec_status() == s,
        Completion::spec_mk(s, v).spec_value() == v,
{
}

impl Status {
    /// Classify this status into the two-outcome result of a no-payload
    /// operation: an error class code comes back as `Err`, anything else as
    /// a completion of `()`.
    pub fn into_result(self) -> (r: Result<Completion<()>, Status>)
        ensures
            self.spec_is_error() ==> (r matches Err(e) && e == self),
            !self.spec_is_error() ==> (r matches Ok(c) && c.spec_status() == self
                && c.spec_value() == ()),
    {
        if self.is_error() {
            Err(self)
        } else {
            Ok(Completion::new(self, ()))
        }
    }

    /// Classify this status, attaching `val` as the payload of the non-error
    /// outcome. On an error the payload is dropped unseen: a failed call
    /// must never expose output as valid data.
    pub fn into_with_val<T>(self, val: T) -> (r: Result<Completion<T>, Status>)
        ensures
            self.spec_is_error() ==> (r matches Err(e) && e == self),
            !self.spec_is_error() ==> (r matches Ok(c) && c.spec_status() == self
                && c.spec_value() == val),
    {
        if self.is_error() {
            Err(self)
        } else {
            Ok(Completion::new(self, val))
        }
    }
}

} // verus!
