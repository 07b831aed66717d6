//! The X11 part of the binding.
use vstd::prelude::*;

pub mod ffi;

use self::ffi::xkb_x11_setup_xkb_extension_flags;

verus! {

pub const MIN_MAJOR_XKB_VERSION: u16 = 1;

pub const MIN_MINOR_XKB_VERSION: u16 = 0;

/// Flags for setting up the XKB extension on a connection.
#[derive(Clone, Copy, Debug, PartialEq, Eq, Structural)]
pub enum SetupXkbExtensionFlags {
    /// Do not apply any flags.
    NoFlags,
}

impl SetupXkbExtensionFlags {
    /// These flags in the engine's vocabulary.
    pub open spec fn spec_to_ffi(self) -> xkb_x11_setup_xkb_extension_flags {
        match self {
            SetupXkbExtensionFlags::NoFlags => xkb_x11_setup_xkb_extension_flags::NO_FLAGS,
        }
    }

    /// These flags in the engine's vocabulary.
    pub fn to_ffi(self) -> (flags: xkb_x11_setup_xkb_extension_flags)
        ensures
            flags == self.spec_to_ffi(),
    {
        match self {
            SetupXkbExtensionFlags::NoFlags => xkb_x11_setup_xkb_extension_flags::NO_FLAGS,
        }
    }
}

} // verus!
