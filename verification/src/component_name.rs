//! The component name protocol records: the fixed-layout tables through
//! which a driver publishes human-readable driver and controller names.
//!
//! Two revisions of the protocol exist with the same shape; both are pure
//! data-layout binding with no logic of their own: two routine entry
//! addresses in the firmware's fixed field order and the address of the
//! driver's supported-language list. All three values are opaque here;
//! nothing in this layer calls or dereferences them.

use vstd::prelude::*;

verus! {

/// The current revision of the component name call-table record: the
/// driver-name and controller-name routines, then the supported-language
/// list address.
#[derive(Debug)]
pub struct ComponentName2 {
    get_driver_name: usize,
    get_controller_name: usize,
    supported_languages: usize,
}

impl ComponentName2 {
    /// The entry address of the driver-name routine.
    pub closed spec fn spec_get_driver_name(self) -> usize {
        self.get_driver_name
    }

    /// The entry address of the controller-name routine.
    pub closed spec fn spec_get_controller_name(self) -> usize {
        self.get_controller_name
    }

    /// The address of the supported-language list.
    pub closed spec fn spec_supported_languages(self) -> usize {
        self.supported_languages
    }

    /// Assemble the record from its routine addresses and language list.
    pub fn new(
        get_driver_name: usize,
        get_controller_name: usize,
        supported_languages: usize,
    ) -> (r: ComponentName2)
        ensures
            r.spec_get_driver_name() == get_driver_name,
            r.spec_get_controller_name() == get_controller_name,
            r.spec_supported_languages() == supported_languages,
    {
        ComponentName2 { get_driver_name, get_controller_name, supported_languages }
    }
}

/// The first revision of the component name call-table record, same shape
/// as [`ComponentName2`] under its older identifier.
#[derive(Debug)]
pub struct ComponentName {
    get_driver_name: usize,
    get_controller_name: usize,
    supported_languages: usize,
}

impl ComponentName {
    /// The entry address of the driver-name routine.
    pub closed spec fn spec_get_driver_name(self) -> usize {
        self.get_driver_name
    }

    /// The entry address of the controller-name routine.
    pub closed spec fn spec_get_controller_name(self) -> usize {
        self.get_controller_name
    }

    /// The address of the supported-language list.
    pub closed spec fn spec_supported_languages(self) -> usize {
        self.supported_languages
    }

    /// Assemble the record from its routine addresses and language list.
    pub fn new(
        get_driver_name: usize,
        get_controller_name: usize,
        supported_languages: usize,
    ) -> (r: ComponentName)
        ensures
            r.spec_get_driver_name() == get_driver_name,
            r.spec_get_controller_name() == get_controller_name,
            r.spec_supported_languages() == supported_languages,
    {
        ComponentName { get_driver_name, get_controller_name, supported_languages }
    }
}

} // verus!
