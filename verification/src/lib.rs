//! A safety layer over a firmware runtime that exposes its services through
//! fixed-layout call tables of routines.
//!
//! The library has three parts:
//!
//! * the status and completion model ([`status::Status`],
//!   [`completion::Completion`]), which keeps hard errors apart from
//!   recoverable warnings and makes it structurally impossible for a
//!   "successful" value to carry a hidden error;
//! * the width dispatch ([`width::IoWidth`], [`width::ToIoWidth`]), which
//!   ties a buffer's element type to the access-width code the firmware
//!   call expects;
//! * the typed PCI I/O wrapper ([`pci::PciIO`]), which dispatches reads and
//!   writes across configuration, port I/O and memory space, and manages
//!   the lifetime of a device-visible memory mapping ([`pci::Mapping`]) so
//!   that a failed release never silently strands a live mapping.
//!
//! The firmware side is reached only through call-table traits
//! ([`pci::PciIoCalls`], [`acpi_table::AcpiTableCalls`]): an embedding
//! implements them by forwarding to the real routine addresses, and a test
//! bench implements them with stubs. Warnings a caller chooses to discard
//! are routed to an explicit diagnostic sink ([`diag::DiagnosticSink`]),
//! exactly one record per event.

pub mod acpi_table;
pub mod completion;
pub mod component_name;
pub mod diag;
pub mod driver_binding;
pub mod pci;
pub mod status;
pub mod width;
