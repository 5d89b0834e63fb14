//! Property addresses: the keys under which the native layer files what can
//! be read from or written to an audio object.
use vstd::prelude::*;

use super::Scope;

verus! {

/// The number that a four-character code stands for: its characters, first
/// to last, as the bytes of a big-endian 32-bit integer.
pub open spec fn four_cc(a: char, b: char, c: char, d: char) -> u32 {
    ((a as u32) * 0x100_0000 + (b as u32) * 0x1_0000 + (c as u32) * 0x100 + (d as u32)) as u32
}

/// The scope of a property that belongs to the object as a whole: `glob`.
pub const SCOPE_GLOBAL: u32 = 0x676C_6F62;

/// The scope of a property of the object's input side: `inpt`.
pub const SCOPE_INPUT: u32 = 0x696E_7074;

/// The scope of a property of the object's output side: `outp`.
pub const SCOPE_OUTPUT: u32 = 0x6F75_7470;

/// The one element that object-level properties are addressed at.
pub const ELEMENT_MASTER: u32 = 0;

/// The key of one property: which property, of which side of the object, at
/// which element.
#[derive(Clone, Copy, PartialEq, Eq, Debug, Structural)]
pub struct PropertyAddress {
    pub selector: u32,
    pub scope: u32,
    pub element: u32,
}

/// The properties that this library reads or writes.
#[derive(Clone, Copy, PartialEq, Eq, Debug, Structural)]
pub enum Property {
    DefaultInputDevice,
    DefaultOutputDevice,
    DeviceBufferFrameSizeRange,
    DeviceLatency,
    DeviceManufacturer,
    DeviceName,
    DeviceRate,
    DeviceRateRange,
    DeviceSource,
    DeviceSourceName,
    DeviceStreams,
    DeviceUID,
    Devices,
    StreamConfiguration,
    StreamLatency,
}

impl Property {
    /// The four-character code that the native layer knows the property by.
    pub open spec fn code(self) -> u32 {
        match self {
            Property::DefaultInputDevice => four_cc('d', 'I', 'n', ' '),
            Property::DefaultOutputDevice => four_cc('d', 'O', 'u', 't'),
            Property::DeviceBufferFrameSizeRange => four_cc('f', 's', 'z', '#'),
            Property::DeviceLatency => four_cc('l', 't', 'n', 'c'),
            Property::DeviceManufacturer => four_cc('l', 'm', 'a', 'k'),
            Property::DeviceName => four_cc('l', 'n', 'a', 'm'),
            Property::DeviceRate => four_cc('n', 's', 'r', 't'),
            Property::DeviceRateRange => four_cc('n', 's', 'r', '#'),
            Property::DeviceSource => four_cc('s', 's', 'r', 'c'),
            Property::DeviceSourceName => four_cc('l', 's', 'c', 'n'),
            Property::DeviceStreams => four_cc('s', 't', 'm', '#'),
            Property::DeviceUID => four_cc('u', 'i', 'd', ' '),
            Property::Devices => four_cc('d', 'e', 'v', '#'),
            Property::StreamConfiguration => four_cc('s', 'l', 'a', 'y'),
            Property::StreamLatency => four_cc('l', 't', 'n', 'c'),
        }
    }

    /// The selector of the property.
    pub fn selector(self) -> (selector: u32)
        ensures
            selector == self.code(),
    {
        match self {
            Property::DefaultInputDevice => 0x6449_6E20,
            Property::DefaultOutputDevice => 0x644F_7574,
            Property::DeviceBufferFrameSizeRange => 0x6673_7A23,
            Property::DeviceLatency => 0x6C74_6E63,
            Property::DeviceManufacturer => 0x6C6D_616B,
            Property::DeviceName => 0x6C6E_616D,
            Property::DeviceRate => 0x6E73_7274,
            Property::DeviceRateRange => 0x6E73_7223,
            Property::DeviceSource => 0x7373_7263,
            Property::DeviceSourceName => 0x6C73_636E,
            Property::DeviceStreams => 0x7374_6D23,
            Property::DeviceUID => 0x7569_6420,
            Property::Devices => 0x6465_7623,
            Property::StreamConfiguration => 0x736C_6179,
            Property::StreamLatency => 0x6C74_6E63,
        }
    }
}

impl Scope {
    /// The four-character code of the side of an object that the scope names.
    pub open spec fn code(self) -> u32 {
        match self {
            Scope::Input => four_cc('i', 'n', 'p', 't'),
            Scope::Output => four_cc('o', 'u', 't', 'p'),
        }
    }
}

/// The address of a property of one side of an object.
pub open spec fn scope_address(scope: Scope, p: Property) -> PropertyAddress {
    PropertyAddress { selector: p.code(), scope: scope.code(), element: 0 }
}

/// The address of a property of an object as a whole.
pub open spec fn global_address(p: Property) -> PropertyAddress {
    PropertyAddress { selector: p.code(), scope: four_cc('g', 'l', 'o', 'b'), element: 0 }
}

/// Builds the address of a property of the input or the output side.
pub fn get_scope_property_address(scope: &Scope, p: Property) -> (address: PropertyAddress)
    ensures
        address == scope_address(*scope, p),
{
    let scope: u32 = match scope {
        Scope::Input => SCOPE_INPUT,
        Scope::Output => SCOPE_OUTPUT,
    };
    PropertyAddress { selector: p.selector(), scope, element: ELEMENT_MASTER }
}

/// Builds the address of a property of the object as a whole.
pub fn get_global_property_address(p: Property) -> (address: PropertyAddress)
    ensures
        address == global_address(p),
{
    PropertyAddress { selector: p.selector(), scope: SCOPE_GLOBAL, element: ELEMENT_MASTER }
}

} // verus!
