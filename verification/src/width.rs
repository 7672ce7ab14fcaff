//! Width dispatch: the association between a buffer's element type and the
//! access-width code the firmware call expects.
//!
//! A read or write operation is parameterized by the element type of the
//! buffer being transferred; the width code sent across the call boundary is
//! selected purely from that type, so a mismatch between the declared
//! element type and the width code is impossible. The firmware enumeration
//! also defines a 64-bit width, and [`IoWidth::U64`] carries its code, but
//! no element type is tied to it here: the 64-bit width is intentionally not
//! reachable through the generic dispatch. Extending the dispatch would be
//! one more [`ToIoWidth`] implementation, not a change to the scheme.

use vstd::prelude::*;

verus! {

/// The firmware's access-width enumeration for I/O operations.
#[derive(Clone, Copy, Debug, PartialEq, Eq, Structural)]
pub enum IoWidth {
    U8,
    U16,
    U32,
    U64,
}

impl IoWidth {
    /// The numeric code of this width in the firmware's enumeration.
    pub open spec fn spec_code(self) -> i32 {
        match self {
            IoWidth::U8 => 0,
            IoWidth::U16 => 1,
            IoWidth::U32 => 2,
            IoWidth::U64 => 3,
        }
    }

    /// One more than the largest element value a unit of this width can
    /// carry.
    pub open spec fn spec_bound(self) -> int {
        match self {
            IoWidth::U8 => 0x100,
            IoWidth::U16 => 0x1_0000,
            IoWidth::U32 => 0x1_0000_0000,
            IoWidth::U64 => 0x1_0000_0000_0000_0000,
        }
    }

    /// The numeric code of this width, as it crosses the call boundary.
    pub fn code(self) -> (r: i32)
        ensures
            r == self.spec_code(),
    {
        match self {
            IoWidth::U8 => 0,
            IoWidth::U16 => 1,
            IoWidth::U32 => 2,
            IoWidth::U64 => 3,
        }
    }
}

/// Ties a native unsigned integer type to the firmware access width of the
/// same size, and carries the loss-free conversions between the type and
/// the element values a call-table buffer holds.
pub trait ToIoWidth: Sized + Copy {
    /// The access width every element of this type is transferred at.
    spec fn spec_width() -> IoWidth;

    /// The element value this datum occupies in a call-table buffer.
    spec fn spec_element(self) -> u64;

    /// Select the access width from the element type alone.
    fn io_width() -> (r: IoWidth)
        ensures
            r == Self::spec_width(),
    ;

    /// Widen this datum to the element value the call table carries. The
    /// value always lies below the width's bound.
    fn to_element(self) -> (r: u64)
        ensures
            r == self.spec_element(),
            r < Self::spec_width().spec_bound(),
    ;

    /// Read a datum back from an element value lying below the width's
    /// bound. The conversion inverts [`ToIoWidth::to_element`].
    fn from_element(v: u64) -> (r: Self)
        requires
            v < Self::spec_width().spec_bound(),
        ensures
            r.spec_element() == v,
    ;
}

impl ToIoWidth for u8 {
    open spec fn spec_width() -> IoWidth {
        IoWidth::U8
    }

    open spec fn spec_element(self) -> u64 {
        self as u64
    }

    fn io_width() -> (r: IoWidth) {
        IoWidth::U8
    }

    fn to_element(self) -> (r: u64) {
        self as u64
    }

    fn from_element(v: u64) -> (r: Self) {
        v as u8
    }
}

impl ToIoWidth for u16 {
    open spec fn spec_width() -> IoWidth {
        IoWidth::U16
    }

    open spec fn spec_element(self) -> u64 {
        self as u64
    }

    fn io_width() -> (r: IoWidth) {
        IoWidth::U16
    }

    fn to_element(self) -> (r: u64) {
        self as u64
    }

    fn from_element(v: u64) -> (r: Self) {
        v as u16
    }
}

impl ToIoWidth for u32 {
    open spec fn spec_width() -> IoWidth {
        IoWidth::U32
    }

    open spec fn spec_element(self) -> u64 {
        self as u64
    }

    fn io_width() -> (r: IoWidth) {
        IoWidth::U32
    }

    fn to_element(self) -> (r: u64) {
        self as u64
    }

    fn from_element(v: u64) -> (r: Self) {
        v as u32
    }
}

/// Width dispatch sends exactly the documented enumeration code for each
/// element type of 8, 16 and 32 bits, and no other.
pub proof fn lemma_width_codes()
    ensures
        <u8 as ToIoWidth>::spec_width().spec_code() == 0,
        <u16 as ToIoWidth>::spec_width().spec_code() == 1,
        <u32 as ToIoWidth>::spec_width().spec_code() == 2,
{
}

} // verus!
