//! The raw vocabulary of the engine's compose part.
#![allow(non_camel_case_types)]
use vstd::prelude::*;

verus! {

/// What a compose table handle points to: a marker for the handle's type, with nothing
/// in it.
pub struct xkb_compose_table {
    _opaque: (),
}

/// What a compose state handle points to: a marker for the handle's type, with nothing
/// in it.
pub struct xkb_compose_state {
    _opaque: (),
}

pub type xkb_compose_compile_flags = u32;

pub type xkb_compose_format = u32;

pub type xkb_compose_state_flags = u32;

pub type xkb_compose_status = u32;

pub type xkb_compose_feed_result = u32;

} // verus!
