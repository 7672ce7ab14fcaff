//! The raw tri-state completion code returned by every firmware call.
//!
//! A status code is a fixed-width unsigned integer whose high bit partitions
//! the domain into three classes: `0` is success, any other value with the
//! high bit clear is a warning, and any value with the high bit set is a hard
//! error. Only class membership matters to this layer; the firmware's code
//! table assigns meanings to the individual values.

use vstd::prelude::*;

verus! {

/// The smallest status value of the error class: all values at or above it
/// have the high bit set.
pub const ERROR_BIT: u64 = 0x8000_0000_0000_0000;

/// A raw firmware completion code.
///
/// The wrapped integer is public: status values cross the call-table boundary
/// verbatim and carry no invariant of their own.
#[derive(Clone, Copy, Debug, PartialEq, Eq, Structural)]
pub struct Status(pub u64);

impl Status {
    /// The status value is of the error class: its high bit is set.
    pub open spec fn spec_is_error(self) -> bool {
        self.0 >= ERROR_BIT
    }

    /// The status value is exactly success.
    pub open spec fn spec_is_success(self) -> bool {
        self.0 == 0
    }

    /// The status value is of the warning class: nonzero, high bit clear.
    pub open spec fn spec_is_warning(self) -> bool {
        self.0 != 0 && self.0 < ERROR_BIT
    }

    /// The success status code.
    pub fn success() -> (r: Status)
        ensures
            r.spec_is_success(),
    {
        Status(0)
    }

    /// Classify this status as a hard error.
    pub fn is_error(self) -> (r: bool)
        ensures
            r == self.spec_is_error(),
    {
        self.0 >= ERROR_BIT
    }

    /// Classify this status as exact success.
    pub fn is_success(self) -> (r: bool)
        ensures
            r == self.spec_is_success(),
    {
        self.0 == 0
    }

    /// Classify this status as a warning.
    pub fn is_warning(self) -> (r: bool)
        ensures
            r == self.spec_is_warning(),
    {
        self.0 != 0 && self.0 < ERROR_BIT
    }
}

/// The three status classes cover the whole domain and never overlap.
pub proof fn lemma_status_classes(s: Status)
    ensures
        s.spec_is_success() || s.spec_is_warning() || s.spec_is_error(),
        !(s.spec_is_success() && s.spec_is_warning()),
        !(s.spec_is_success() && s.spec_is_error()),
        !(s.spec_is_warning() && s.spec_is_error()),
{
}

} // verus!
