//! The raw vocabulary of the engine's X11 part.
#![allow(non_camel_case_types)]
use vstd::prelude::*;

verus! {

pub const XKB_X11_MIN_MAJOR_XKB_VERSION: u16 = 1;

pub const XKB_X11_MIN_MINOR_XKB_VERSION: u16 = 0;

/// Flags for setting up the XKB extension on a connection.
#[derive(Clone, Copy, Debug, PartialEq, Eq, Structural)]
pub enum xkb_x11_setup_xkb_extension_flags {
    /// Do not apply any flags.
    NO_FLAGS,
}

impl xkb_x11_setup_xkb_extension_flags {
    /// The number that the engine gives to these flags.
    pub open spec fn spec_value(self) -> u32 {
        match self {
            xkb_x11_setup_xkb_extension_flags::NO_FLAGS => 0,
        }
    }

    /// The number that the engine gives to these flags.
    pub fn value(self) -> (v: u32)
        ensures
            v == self.spec_value(),
    {
        match self {
            xkb_x11_setup_xkb_extension_flags::NO_FLAGS => 0,
        }
    }
}

} // verus!
