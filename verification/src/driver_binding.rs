//! The driver binding protocol record: the fixed-layout table a driver
//! hands to the firmware so that controllers can be offered to it.
//!
//! The record is pure data-layout binding with no logic of its own: three
//! routine entry addresses in the firmware's fixed field order, a version,
//! and the two handles the firmware associates with the driver. Routine
//! addresses and handles are opaque values here; nothing in this layer
//! calls or dereferences them.

use vstd::prelude::*;

verus! {

/// An opaque firmware handle: a key into the firmware's object namespace.
#[derive(Clone, Copy, Debug, PartialEq, Eq, Structural)]
pub struct Handle(pub usize);

/// The driver binding call-table record, fields in the firmware's order:
/// the supported, start and stop routines, the interface version, and the
/// image and driver binding handles.
#[derive(Debug)]
pub struct DriverBinding {
    supported: usize,
    start: usize,
    stop: usize,
    version: u32,
    image_handle: Handle,
    driver_binding_handle: Handle,
}

impl DriverBinding {
    /// The entry address of the supported routine.
    pub closed spec fn spec_supported(self) -> usize {
        self.supported
    }

    /// The entry address of the start routine.
    pub closed spec fn spec_start(self) -> usize {
        self.start
    }

    /// The entry address of the stop routine.
    pub closed spec fn spec_stop(self) -> usize {
        self.stop
    }

    /// The declared interface version.
    pub closed spec fn spec_version(self) -> u32 {
        self.version
    }

    /// The handle of the driver's loaded image.
    pub closed spec fn spec_image_handle(self) -> Handle {
        self.image_handle
    }

    /// The handle the binding itself is installed on.
    pub closed spec fn spec_driver_binding_handle(self) -> Handle {
        self.driver_binding_handle
    }

    /// Assemble the record from its routine addresses, version and handles.
    pub fn new(
        start: usize,
        supported: usize,
        stop: usize,
        version: u32,
        image_handle: Handle,
        driver_binding_handle: Handle,
    ) -> (r: DriverBinding)
        ensures
            r.spec_start() == start,
            r.spec_supported() == supported,
            r.spec_stop() == stop,
            r.spec_version() == version,
            r.spec_image_handle() == image_handle,
            r.spec_driver_binding_handle() == driver_binding_handle,
    {
        DriverBinding { supported, start, stop, version, image_handle, driver_binding_handle }
    }

    /// The handle the binding is installed on.
    pub fn driver_handle(&self) -> (r: Handle)
        ensures
            r == self.spec_driver_binding_handle(),
    {
        self.driver_binding_handle
    }
}

} // verus!
