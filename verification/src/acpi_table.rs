//! Wrapper over the firmware's table-installation call table: installing a
//! configuration table and uninstalling it again by key.
//!
//! Like the PCI wrapper, this layer reaches the firmware only through a
//! call-table trait; the table contents themselves are opaque, named by
//! their buffer address and size.

use vstd::prelude::*;

use crate::completion::Completion;
use crate::status::Status;

verus! {

/// The table-installation call table, as this layer sees it.
///
/// Each method stands for one routine of the firmware's fixed-layout
/// table; the returned status is entirely the implementation's choice.
pub trait AcpiTableCalls: Sized {
    /// Install the table held in `buffer_size` bytes at `buffer_addr`.
    /// Returns the status and, on success, the key that names the
    /// installed table.
    fn install(&mut self, buffer_addr: u64, buffer_size: usize) -> (r: (Status, usize));

    /// Uninstall the table named by `table_key`.
    fn uninstall(&mut self, table_key: usize) -> (s: Status);
}

/// Typed access to the table-installation interface through its call table.
pub struct AcpiTable<C: AcpiTableCalls> {
    calls: C,
}

impl<C: AcpiTableCalls> AcpiTable<C> {
    /// The wrapped call table.
    pub closed spec fn spec_calls(self) -> C {
        self.calls
    }

    /// Wrap a call table.
    pub fn new(calls: C) -> (r: AcpiTable<C>)
        ensures
            r.spec_calls() == calls,
    {
        AcpiTable { calls }
    }

    /// Read access to the wrapped call table.
    pub fn calls(&self) -> (r: &C)
        ensures
            *r == self.spec_calls(),
    {
        &self.calls
    }

    /// Install the table held in `buffer_size` bytes at `buffer_addr`.
    ///
    /// On success or warning the completion carries the key under which
    /// the table was installed; on a hard error no key is exposed.
    pub fn install_acpi_table(&mut self, buffer_addr: u64, buffer_size: usize) -> (r: Result<
        Completion<usize>,
        Status,
    >)
        ensures
            (r matches Ok(c) ==> !c.spec_status().spec_is_error()),
            (r matches Err(e) ==> e.spec_is_error()),
    {
        let (status, table_key) = self.calls.install(buffer_addr, buffer_size);
        status.into_with_val(table_key)
    }

    /// Uninstall the table named by `table_key`.
    pub fn uninstall_acpi_table(&mut self, table_key: usize) -> (r: Result<Completion<()>, Status>)
        ensures
            (r matches Ok(c) ==> !c.spec_status().spec_is_error()),
            (r matches Err(e) ==> e.spec_is_error()),
    {
        let status = self.calls.uninstall(table_key);
        status.into_result()
    }
}

} // verus!
