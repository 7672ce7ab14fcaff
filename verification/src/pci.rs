//! Typed wrapper over the PCI I/O call table: reads and writes across three
//! address spaces, and the lifetime of a device-visible memory mapping.
//!
//! The firmware exposes the controller through a fixed-layout table of
//! routines. This layer reaches that table only through the
//! [`PciIoCalls`] trait: an embedding implements it by forwarding to the
//! real routine addresses, and a test bench implements it with stubs. Every
//! operation hands the trait a width code resolved from the buffer's
//! element type ([`ToIoWidth`]), interprets the returned [`Status`] through
//! the completion model, and never exposes firmware output as valid data
//! unless the call reported success or a warning.
//!
//! A [`Mapping`] is a use-once capability for a device-visible address
//! range. It is created by [`PciIO::map`] and consumed by value in
//! [`PciIO::unmap`]; a failed release hands the capability back inside the
//! error, so a live device-side binding is never silently stranded.

use vstd::prelude::*;

use crate::completion::Completion;
use crate::diag::DiagnosticSink;
use crate::status::Status;
use crate::width::IoWidth;
use crate::width::ToIoWidth;

verus! {

/// An index of a PCI base address register.
///
/// Bars 0 through 5 address the six configurable regions; the value `0xff`
/// is the pass-through register the firmware reserves for accesses behind
/// a bridge.
#[derive(Clone, Copy, Debug, PartialEq, Eq, Structural)]
pub struct IoRegister(pub u8);

/// The direction of the upcoming bus-master operation: the external device
/// is going to read system memory, write it, or share a coherent buffer in
/// both directions.
#[derive(Clone, Copy, Debug, PartialEq, Eq, Structural)]
pub enum IoOperation {
    /// A read operation from system memory by a bus master.
    BusMasterRead,
    /// A write operation to system memory by a bus master.
    BusMasterWrite,
    /// Coherent read and write access to system memory by both the
    /// processor and a bus master.
    BusMasterCommonBuffer,
}

impl IoOperation {
    /// The numeric code of this operation in the firmware's enumeration.
    pub open spec fn spec_code(self) -> i32 {
        match self {
            IoOperation::BusMasterRead => 0,
            IoOperation::BusMasterWrite => 1,
            IoOperation::BusMasterCommonBuffer => 2,
        }
    }

    /// The numeric code of this operation, as it crosses the call boundary.
    pub fn code(self) -> (r: i32)
        ensures
            r == self.spec_code(),
    {
        match self {
            IoOperation::BusMasterRead => 0,
            IoOperation::BusMasterWrite => 1,
            IoOperation::BusMasterCommonBuffer => 2,
        }
    }
}

/// The PCI I/O call table, as this layer sees it.
///
/// Each method stands for one routine of the firmware's fixed-layout table.
/// An implementation owes what the firmware specification promises of the
/// routine and nothing more; in particular the returned status is entirely
/// the implementation's choice. Buffers carry one element value per unit of
/// the declared access width.
pub trait PciIoCalls: Sized {
    /// Read `count` units of width `width` from configuration space at
    /// `offset`. The routine fills `buffer` in place: it keeps the length
    /// and writes only values the width can carry.
    fn config_read(
        &mut self,
        width: IoWidth,
        offset: u32,
        count: usize,
        buffer: &mut Vec<u64>,
    ) -> (s: Status)
        requires
            old(buffer)@.len() == count,
        ensures
            final(buffer)@.len() == count,
            forall|i: int| 0 <= i < count ==> final(buffer)@[i] < width.spec_bound(),
    ;

    /// Write `count` units of width `width` to configuration space at
    /// `offset`. Every element handed over lies below the width's bound.
    fn config_write(
        &mut self,
        width: IoWidth,
        offset: u32,
        count: usize,
        buffer: &Vec<u64>,
    ) -> (s: Status)
        requires
            buffer@.len() == count,
            forall|i: int| 0 <= i < count ==> buffer@[i] < width.spec_bound(),
    ;

    /// Read `count` units of width `width` from the I/O port space region
    /// of base address register `bar`, starting at `offset`.
    fn io_read(
        &mut self,
        width: IoWidth,
        bar: IoRegister,
        offset: u64,
        count: usize,
        buffer: &mut Vec<u64>,
    ) -> (s: Status)
        requires
            old(buffer)@.len() == count,
        ensures
            final(buffer)@.len() == count,
            forall|i: int| 0 <= i < count ==> final(buffer)@[i] < width.spec_bound(),
    ;

    /// Write `count` units of width `width` to the I/O port space region of
    /// base address register `bar`, starting at `offset`.
    fn io_write(
        &mut self,
        width: IoWidth,
        bar: IoRegister,
        offset: u64,
        count: usize,
        buffer: &Vec<u64>,
    ) -> (s: Status)
        requires
            buffer@.len() == count,
            forall|i: int| 0 <= i < count ==> buffer@[i] < width.spec_bound(),
    ;

    /// Read `count` units of width `width` from the memory-mapped region of
    /// base address register `bar`, starting at `offset`.
    fn mem_read(
        &mut self,
        width: IoWidth,
        bar: IoRegister,
        offset: u64,
        count: usize,
        buffer: &mut Vec<u64>,
    ) -> (s: Status)
        requires
            old(buffer)@.len() == count,
        ensures
            final(buffer)@.len() == count,
            forall|i: int| 0 <= i < count ==> final(buffer)@[i] < width.spec_bound(),
    ;

    /// Write `count` units of width `width` to the memory-mapped region of
    /// base address register `bar`, starting at `offset`.
    fn mem_write(
        &mut self,
        width: IoWidth,
        bar: IoRegister,
        offset: u64,
        count: usize,
        buffer: &Vec<u64>,
    ) -> (s: Status)
        requires
            buffer@.len() == count,
            forall|i: int| 0 <= i < count ==> buffer@[i] < width.spec_bound(),
    ;

    /// Create a device-visible binding for `num_bytes` bytes of host memory
    /// at `host_addr`, to be used for the bus-master operation `op`.
    ///
    /// Returns the status, the byte length actually granted — the firmware
    /// may grant a shorter region than requested, never a longer one — the
    /// device-visible address, and the opaque token that names the binding
    /// in a later release.
    fn map(&mut self, op: IoOperation, host_addr: u64, num_bytes: usize) -> (r: (
        Status,
        usize,
        u64,
        u64,
    ))
        ensures
            r.1 <= num_bytes,
    ;

    /// Release the device-visible binding named by `token`.
    fn unmap(&mut self, token: u64) -> (s: Status);

    /// Commit all posted transactions held by the controller.
    fn flush(&mut self) -> (s: Status);
}

/// A live device-visible binding of a host memory region, produced by
/// [`PciIO::map`] and consumed exactly once by [`PciIO::unmap`].
///
/// The value is a capability token, not a memory owner: the caller owns the
/// host buffer for the mapping's entire lifetime, and this layer never
/// dereferences the host address it records. The type has no copy or clone,
/// so a released mapping cannot be used again. The value must not be
/// discarded without an explicit release attempt: the firmware side keeps
/// the binding active until it is told otherwise.
#[must_use]
#[derive(Debug)]
pub struct Mapping {
    host_addr: u64,
    device_addr: u64,
    size: usize,
    token: u64,
}

impl Mapping {
    /// The host-side base address of the mapped region, as handed to
    /// [`PciIO::map`].
    pub closed spec fn spec_host_addr(self) -> u64 {
        self.host_addr
    }

    /// The bus-relative address the device sees.
    pub closed spec fn spec_device_addr(self) -> u64 {
        self.device_addr
    }

    /// The byte length the firmware actually granted.
    pub closed spec fn spec_size(self) -> usize {
        self.size
    }

    /// The opaque token the firmware uses to name this binding.
    pub closed spec fn spec_token(self) -> u64 {
        self.token
    }

    /// Captured size of the mapped region: the granted length, which may be
    /// shorter than what was requested.
    pub fn size(&self) -> (r: usize)
        ensures
            r == self.spec_size(),
    {
        self.size
    }

    /// Mapped bus-relative address of the region.
    pub fn device_address(&self) -> (r: u64)
        ensures
            r == self.spec_device_addr(),
    {
        self.device_addr
    }

    /// Host-side base address of the region. This layer records the value
    /// without ever dereferencing it.
    pub fn host_address(&self) -> (r: u64)
        ensures
            r == self.spec_host_addr(),
    {
        self.host_addr
    }
}

/// Build the outward result of a mapping call from the values the call
/// table returned.
///
/// An error-class status yields `Err` with no mapping constructed. Any
/// other status yields a completion whose mapping records the granted — not
/// the requested — length, beside the host address, the device address and
/// the release token.
pub fn mapping_from_call(
    status: Status,
    host_addr: u64,
    granted: usize,
    device_addr: u64,
    token: u64,
) -> (r: Result<Completion<Mapping>, Status>)
    ensures
        status.spec_is_error() ==> (r matches Err(e) && e == status),
        !status.spec_is_error() ==> (r matches Ok(c) && c.spec_status() == status
            && c.spec_value().spec_host_addr() == host_addr
            && c.spec_value().spec_device_addr() == device_addr
            && c.spec_value().spec_size() == granted && c.spec_value().spec_token() == token),
{
    let mapping = Mapping { host_addr, device_addr, size: granted, token };
    status.into_with_val(mapping)
}

/// Typed access to one PCI controller through its call table.
pub struct PciIO<C: PciIoCalls> {
    calls: C,
}

impl<C: PciIoCalls> PciIO<C> {
    /// The wrapped call table.
    pub closed spec fn spec_calls(self) -> C {
        self.calls
    }

    /// Wrap a call table.
    pub fn new(calls: C) -> (r: PciIO<C>)
        ensures
            r.spec_calls() == calls,
    {
        PciIO { calls }
    }

    /// Read access to the wrapped call table.
    pub fn calls(&self) -> (r: &C)
        ensures
            *r == self.spec_calls(),
    {
        &self.calls
    }

    /// Unwrap the call table again.
    pub fn into_calls(self) -> (r: C)
        ensures
            r == self.spec_calls(),
    {
        self.calls
    }

    /// Read PCI configuration space into a storage provided by a vector.
    ///
    /// On success or warning the buffer holds what the firmware wrote; on a
    /// hard error it is handed back exactly as it was, so partially written
    /// output is never exposed as valid data.
    pub fn read_config<T: ToIoWidth>(&mut self, offset: u32, buffer: &mut Vec<T>) -> (r: Result<
        Completion<()>,
        Status,
    >)
        ensures
            final(buffer)@.len() == old(buffer)@.len(),
            (r matches Ok(c) ==> !c.spec_status().spec_is_error()),
            (r matches Err(e) ==> e.spec_is_error() && final(buffer)@ == old(buffer)@),
    {
        let mut elems = elements_of(buffer);
        let status = self.calls.config_read(T::io_width(), offset, buffer.len(), &mut elems);
        if status.is_error() {
            Err(status)
        } else {
            store_elements(buffer, &elems);
            Ok(Completion::new(status, ()))
        }
    }

    /// Read PCI configuration space into a storage provided by an object of
    /// size `T`.
    ///
    /// The value comes into being only when the call reports success or a
    /// warning; on a hard error no value of `T` is ever produced.
    pub fn read_config_single<T: ToIoWidth>(&mut self, offset: u32) -> (r: Result<
        Completion<T>,
        Status,
    >)
        ensures
            (r matches Ok(c) ==> !c.spec_status().spec_is_error()),
            (r matches Err(e) ==> e.spec_is_error()),
    {
        let mut elems: Vec<u64> = Vec::new();
        elems.push(0);
        let status = self.calls.config_read(T::io_width(), offset, 1, &mut elems);
        if status.is_error() {
            Err(status)
        } else {
            let value = T::from_element(elems[0]);
            Ok(Completion::new(status, value))
        }
    }

    /// Write a number of objects into PCI configuration space.
    pub fn write_config<T: ToIoWidth>(&mut self, offset: u32, buffer: &Vec<T>) -> (r: Result<
        Completion<()>,
        Status,
    >)
        ensures
            (r matches Ok(c) ==> !c.spec_status().spec_is_error()),
            (r matches Err(e) ==> e.spec_is_error()),
    {
        let elems = elements_of(buffer);
        let status = self.calls.config_write(T::io_width(), offset, buffer.len(), &elems);
        status.into_result()
    }

    /// Read an I/O port space region into a storage provided by a vector.
    pub fn read_io<T: ToIoWidth>(
        &mut self,
        bar: IoRegister,
        offset: u64,
        buffer: &mut Vec<T>,
    ) -> (r: Result<Completion<()>, Status>)
        ensures
            final(buffer)@.len() == old(buffer)@.len(),
            (r matches Ok(c) ==> !c.spec_status().spec_is_error()),
            (r matches Err(e) ==> e.spec_is_error() && final(buffer)@ == old(buffer)@),
    {
        let mut elems = elements_of(buffer);
        let status = self.calls.io_read(T::io_width(), bar, offset, buffer.len(), &mut elems);
        if status.is_error() {
            Err(status)
        } else {
            store_elements(buffer, &elems);
            Ok(Completion::new(status, ()))
        }
    }

    /// Read an I/O port space region into an object storage.
    pub fn read_io_single<T: ToIoWidth>(&mut self, bar: IoRegister, offset: u64) -> (r: Result<
        Completion<T>,
        Status,
    >)
        ensures
            (r matches Ok(c) ==> !c.spec_status().spec_is_error()),
            (r matches Err(e) ==> e.spec_is_error()),
    {
        let mut elems: Vec<u64> = Vec::new();
        elems.push(0);
        let status = self.calls.io_read(T::io_width(), bar, offset, 1, &mut elems);
        if status.is_error() {
            Err(status)
        } else {
            let value = T::from_element(elems[0]);
            Ok(Completion::new(status, value))
        }
    }

    /// Write a number of objects into an I/O port space region.
    pub fn write_io<T: ToIoWidth>(
        &mut self,
        bar: IoRegister,
        offset: u64,
        buffer: &Vec<T>,
    ) -> (r: Result<Completion<()>, Status>)
        ensures
            (r matches Ok(c) ==> !c.spec_status().spec_is_error()),
            (r matches Err(e) ==> e.spec_is_error()),
    {
        let elems = elements_of(buffer);
        let status = self.calls.io_write(T::io_width(), bar, offset, buffer.len(), &elems);
        status.into_result()
    }

    /// Read a memory-mapped I/O region into a storage provided by a vector.
    pub fn read_mem<T: ToIoWidth>(
        &mut self,
        bar: IoRegister,
        offset: u64,
        buffer: &mut Vec<T>,
    ) -> (r: Result<Completion<()>, Status>)
        ensures
            final(buffer)@.len() == old(buffer)@.len(),
            (r matches Ok(c) ==> !c.spec_status().spec_is_error()),
            (r matches Err(e) ==> e.spec_is_error() && final(buffer)@ == old(buffer)@),
    {
        let mut elems = elements_of(buffer);
        let status = self.calls.mem_read(T::io_width(), bar, offset, buffer.len(), &mut elems);
        if status.is_error() {
            Err(status)
        } else {
            store_elements(buffer, &elems);
            Ok(Completion::new(status, ()))
        }
    }

    /// Read a memory-mapped I/O region into an object storage.
    pub fn read_mem_single<T: ToIoWidth>(&mut self, bar: IoRegister, offset: u64) -> (r: Result<
        Completion<T>,
        Status,
    >)
        ensures
            (r matches Ok(c) ==> !c.spec_status().spec_is_error()),
            (r matches Err(e) ==> e.spec_is_error()),
    {
        let mut elems: Vec<u64> = Vec::new();
        elems.push(0);
        let status = self.calls.mem_read(T::io_width(), bar, offset, 1, &mut elems);
        if status.is_error() {
            Err(status)
        } else {
            let value = T::from_element(elems[0]);
            Ok(Completion::new(status, value))
        }
    }

    /// Write a number of objects into a memory-mapped I/O region.
    pub fn write_mem<T: ToIoWidth>(
        &mut self,
        bar: IoRegister,
        offset: u64,
        buffer: &Vec<T>,
    ) -> (r: Result<Completion<()>, Status>)
        ensures
            (r matches Ok(c) ==> !c.spec_status().spec_is_error()),
            (r matches Err(e) ==> e.spec_is_error()),
    {
        let elems = elements_of(buffer);
        let status = self.calls.mem_write(T::io_width(), bar, offset, buffer.len(), &elems);
        status.into_result()
    }

    /// Create a bus-relative memory binding for a DMA operation.
    ///
    /// The caller keeps the host buffer alive and free of conflicting
    /// accesses for the whole lifetime of the returned [`Mapping`]; this
    /// layer only brokers the address translation. On success or warning
    /// the mapping records the granted length, which must be trusted over
    /// the requested one; on a hard error nothing is granted and the caller
    /// retains full responsibility for the untouched buffer.
    pub fn map(&mut self, op: IoOperation, host_addr: u64, num_bytes: usize) -> (r: Result<
        Completion<Mapping>,
        Status,
    >)
        ensures
            (r matches Ok(c) ==> !c.spec_status().spec_is_error()
                && c.spec_value().spec_host_addr() == host_addr
                && c.spec_value().spec_size() <= num_bytes),
            (r matches Err(e) ==> e.spec_is_error()),
    {
        let (status, granted, device_addr, token) = self.calls.map(op, host_addr, num_bytes);
        mapping_from_call(status, host_addr, granted, device_addr, token)
    }

    /// Remove the device-visible binding for a previously mapped region.
    ///
    /// Consumes the mapping by value: after a successful release no
    /// capability for the binding remains anywhere. On a hard error the
    /// mapping is not discarded — it comes back unchanged inside the error,
    /// because the firmware side may still hold the binding active and the
    /// caller must keep the ability to retry or escalate.
    pub fn unmap(&mut self, mapping: Mapping) -> (r: Result<Completion<()>, (Status, Mapping)>)
        ensures
            (r matches Ok(c) ==> !c.spec_status().spec_is_error()),
            (r matches Err(p) ==> p.0.spec_is_error() && p.1 == mapping),
    {
        let status = self.calls.unmap(mapping.token);
        if status.is_error() {
            Err((status, mapping))
        } else {
            Ok(Completion::new(status, ()))
        }
    }

    /// Flush all PCI controller specific transactions.
    pub fn flush(&mut self) -> (r: Result<Completion<()>, Status>)
        ensures
            (r matches Ok(c) ==> !c.spec_status().spec_is_error()),
            (r matches Err(e) ==> e.spec_is_error()),
    {
        let status = self.calls.flush();
        status.into_result()
    }
}

/// Marker for an object whose storage may back a device-visible mapping.
pub trait Mappable: Sized {
}

/// A [`Mapping`] together with the owned, typed buffer that backs it.
///
/// Produced by [`PciIO::map_ex`] and torn down by [`PciIO::unmap_ex`],
/// which attempts the release on the caller's behalf.
#[derive(Debug)]
pub struct MappingEx<B> {
    mapping: Mapping,
    buffer: Box<B>,
}

impl<B> MappingEx<B> {
    /// The capability for the device-visible binding.
    pub closed spec fn spec_mapping(self) -> Mapping {
        self.mapping
    }

    /// The buffer that backs the binding.
    pub closed spec fn spec_buffer(self) -> B {
        *self.buffer
    }

    /// Expose the raw mapping object.
    pub fn mapping(&self) -> (r: &Mapping)
        ensures
            *r == self.spec_mapping(),
    {
        &self.mapping
    }

    /// Mapped bus-relative address of the backing buffer.
    pub fn device_address(&self) -> (r: u64)
        ensures
            r == self.spec_mapping().spec_device_addr(),
    {
        self.mapping.device_address()
    }

    /// Read access to the backing buffer.
    pub fn get(&self) -> (r: &B)
        ensures
            *r == self.spec_buffer(),
    {
        &self.buffer
    }

    /// Write access to the backing buffer. The mapping itself is untouched.
    pub fn get_mut(&mut self) -> (r: &mut B)
        ensures
            *r == old(self).spec_buffer(),
            final(self).spec_buffer() == *final(r),
            final(self).spec_mapping() == old(self).spec_mapping(),
    {
        &mut self.buffer
    }
}

impl<C: PciIoCalls> PciIO<C> {
    /// Create a bus-relative memory binding backed by an owned object.
    ///
    /// `host_addr` is the address of `buffer`'s storage as the embedding
    /// sees it; this layer records it without dereferencing it. The whole
    /// object is mapped. On a hard error the buffer comes back unchanged
    /// inside the error, and no binding exists.
    pub fn map_ex<B: Mappable>(&mut self, op: IoOperation, buffer: Box<B>, host_addr: u64) -> (r:
        Result<Completion<MappingEx<B>>, (Status, Box<B>)>)
        ensures
            (r matches Ok(c) ==> !c.spec_status().spec_is_error()
                && c.spec_value().spec_mapping().spec_host_addr() == host_addr
                && c.spec_value().spec_mapping().spec_size() <= vstd::layout::size_of::<B>()
                && c.spec_value().spec_buffer() == *buffer),
            (r matches Err(p) ==> p.0.spec_is_error() && p.1 == buffer),
    {
        let num_bytes = core::mem::size_of::<B>();
        match self.map(op, host_addr, num_bytes) {
            Err(e) => Err((e, buffer)),
            Ok(c) => {
                let (status, mapping) = c.split();
                Ok(Completion::new(status, MappingEx { mapping, buffer }))
            },
        }
    }

    /// Tear down a buffer-backed binding and hand the buffer back.
    ///
    /// The release is attempted once. If it fails there is no owner left to
    /// receive the dead capability, so — as the one deliberate exception to
    /// the rule that a live mapping is never dropped — the mapping is
    /// discarded here, and the failure is routed to the diagnostic sink
    /// rather than lost. A warning on a successful release is routed the
    /// same way.
    pub fn unmap_ex<B>(&mut self, ex: MappingEx<B>, sink: &mut DiagnosticSink) -> (r: Box<B>)
        ensures
            *r == ex.spec_buffer(),
            final(sink)@ == old(sink)@ || (exists|s: Status|
                !s.spec_is_success() && final(sink)@ == old(sink)@.push(s)),
    {
        let MappingEx { mapping, buffer } = ex;
        match self.unmap(mapping) {
            Ok(c) => {
                let ghost merged = c.spec_status();
                c.log(sink);
                proof {
                    if !merged.spec_is_success() {
                        assert(!merged.spec_is_success() && sink@ == old(sink)@.push(merged));
                    }
                }
            },
            Err((status, _stranded)) => {
                sink.emit(status);
                proof {
                    assert(!status.spec_is_success() && sink@ == old(sink)@.push(status));
                }
            },
        }
        buffer
    }
}

/// Convert a typed buffer to the element values a call-table buffer
/// holds: one element per datum, each below its width's bound.
pub fn elements_of<T: ToIoWidth>(buffer: &Vec<T>) -> (r: Vec<u64>)
    ensures
        r@.len() == buffer@.len(),
        forall|i: int|
            0 <= i < buffer@.len() ==> r@[i] == buffer@[i].spec_element() && r@[i]
                < T::spec_width().spec_bound(),
{
    let mut out: Vec<u64> = Vec::new();
    let mut idx: usize = 0;
    while idx < buffer.len()
        invariant
            idx <= buffer@.len(),
            out@.len() == idx,
            forall|i: int|
                0 <= i < idx ==> out@[i] == buffer@[i].spec_element() && out@[i]
                    < T::spec_width().spec_bound(),
        decreases buffer@.len() - idx,
    {
        let v = buffer[idx].to_element();
        out.push(v);
        idx += 1;
    }
    out
}

/// Store element values read from the call table back into a typed
/// buffer, datum by datum and loss-free.
pub fn store_elements<T: ToIoWidth>(buffer: &mut Vec<T>, elems: &Vec<u64>)
    requires
        old(buffer)@.len() == elems@.len(),
        forall|i: int| 0 <= i < elems@.len() ==> elems@[i] < T::spec_width().spec_bound(),
    ensures
        final(buffer)@.len() == old(buffer)@.len(),
        forall|i: int| 0 <= i < elems@.len() ==> final(buffer)@[i].spec_element() == elems@[i],
{
    let mut idx: usize = 0;
    while idx < elems.len()
        invariant
            buffer@.len() == elems@.len(),
            idx <= elems@.len(),
            forall|i: int| 0 <= i < elems@.len() ==> elems@[i] < T::spec_width().spec_bound(),
            forall|i: int| 0 <= i < idx ==> buffer@[i].spec_element() == elems@[i],
        decreases elems@.len() - idx,
    {
        let v = T::from_element(elems[idx]);
        buffer.set(idx, v);
        idx += 1;
    }
}

} // verus!
