//! Device properties and their platform addresses.
//!
//! The platform addresses every readable or writable attribute of a device by
//! a (selector, scope, element) triple. The library works with a small closed
//! set of logical properties plus one open `Custom` escape, so that all
//! descriptor construction stands in one place; loops that vary only the
//! channel copy a template address with one field changed.

use vstd::prelude::*;

verus! {

/// Selector of the per-channel volume scalar property (four-character code
/// `volm`).
pub const SELECTOR_VOLUME_SCALAR: u32 = 0x766F_6C6D;

/// Selector of the mute property (four-character code `mute`).
pub const SELECTOR_MUTE: u32 = 0x6D75_7465;

/// Selector of the system-object query for the current default output device
/// (four-character code `dOut`).
pub const SELECTOR_DEFAULT_OUTPUT_DEVICE: u32 = 0x644F_7574;

/// The output scope (four-character code `outp`).
pub const SCOPE_OUTPUT: u32 = 0x6F75_7470;

/// The global scope (four-character code `glob`).
pub const SCOPE_GLOBAL: u32 = 0x676C_6F62;

/// The element that addresses the whole device rather than one channel.
pub const ELEMENT_MASTER: u32 = 0;

/// A (selector, scope, element) triple addressing one attribute of a device
/// for one channel. Element 0 means the whole-device (master) channel.
#[derive(Clone, Copy, Debug, PartialEq, Eq, Structural)]
pub struct PropertyAddress {
    pub selector: u32,
    pub scope: u32,
    pub element: u32,
}

impl PropertyAddress {
    /// The same address pointed at another channel.
    pub fn with_element(self, element: u32) -> (r: PropertyAddress)
        ensures
            r == (PropertyAddress { element, ..self }),
    {
        PropertyAddress { element, ..self }
    }
}

/// The volume-scalar address of one channel.
pub open spec fn volume_addr(element: u32) -> PropertyAddress {
    PropertyAddress { selector: SELECTOR_VOLUME_SCALAR, scope: SCOPE_OUTPUT, element }
}

/// The mute address of one channel.
pub open spec fn mute_addr(element: u32) -> PropertyAddress {
    PropertyAddress { selector: SELECTOR_MUTE, scope: SCOPE_OUTPUT, element }
}

/// The system-object address that names the current default output device.
pub open spec fn default_output_addr() -> PropertyAddress {
    PropertyAddress {
        selector: SELECTOR_DEFAULT_OUTPUT_DEVICE,
        scope: SCOPE_GLOBAL,
        element: ELEMENT_MASTER,
    }
}

/// The volume-scalar address of one channel.
pub fn volume_address(element: u32) -> (r: PropertyAddress)
    ensures
        r == volume_addr(element),
{
    PropertyAddress { selector: SELECTOR_VOLUME_SCALAR, scope: SCOPE_OUTPUT, element }
}

/// The mute address of one channel.
pub fn mute_address(element: u32) -> (r: PropertyAddress)
    ensures
        r == mute_addr(element),
{
    PropertyAddress { selector: SELECTOR_MUTE, scope: SCOPE_OUTPUT, element }
}

/// A logical device property. The three named variants resolve to fixed
/// addresses at the master element; `Custom` carries an explicit address for
/// anything outside the closed set.
#[derive(Clone, Copy, Debug, PartialEq, Eq, Structural)]
pub enum Property {
    /// Per-channel volume scalar.
    Volume,
    /// Mute flag.
    Mute,
    /// System-object query for the current default output device.
    GetDefaultOutputDevice,
    /// A fully explicit address.
    Custom(PropertyAddress),
}

impl Property {
    /// The address this property resolves to.
    pub open spec fn spec_address(self) -> PropertyAddress {
        match self {
            Property::Volume => volume_addr(ELEMENT_MASTER),
            Property::Mute => mute_addr(ELEMENT_MASTER),
            Property::GetDefaultOutputDevice => default_output_addr(),
            Property::Custom(addr) => addr,
        }
    }

    /// The address this property resolves to; the named variants address the
    /// master element.
    pub fn address(self) -> (r: PropertyAddress)
        ensures
            r == self.spec_address(),
    {
        match self {
            Property::Volume => volume_address(ELEMENT_MASTER),
            Property::Mute => mute_address(ELEMENT_MASTER),
            Property::GetDefaultOutputDevice => PropertyAddress {
                selector: SELECTOR_DEFAULT_OUTPUT_DEVICE,
                scope: SCOPE_GLOBAL,
                element: ELEMENT_MASTER,
            },
            Property::Custom(addr) => addr,
        }
    }
}

} // verus!
