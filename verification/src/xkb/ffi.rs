//! The raw vocabulary of the engine: its handle types, its integer types,
//! and the numbers it gives to flags, levels and directions.
#![allow(non_camel_case_types)]
use vstd::prelude::*;

pub mod compose;

verus! {

/// What a context handle points to: a marker for the handle's type, with nothing
/// in it.
pub struct xkb_context {
    _opaque: (),
}

/// What a keymap handle points to: a marker for the handle's type, with nothing
/// in it.
pub struct xkb_keymap {
    _opaque: (),
}

/// What a state handle points to: a marker for the handle's type, with nothing
/// in it.
pub struct xkb_state {
    _opaque: (),
}

pub type xkb_keycode_t = u32;

pub type xkb_keysym_t = u32;

pub type xkb_layout_index_t = u32;

pub type xkb_layout_mask_t = u32;

pub type xkb_level_index_t = u32;

pub type xkb_mod_index_t = u32;

pub type xkb_mod_mask_t = u32;

pub type xkb_led_index_t = u32;

pub type xkb_led_mask_t = u32;

pub const XKB_KEYCODE_INVALID: u32 = 0xffff_ffff;

pub const XKB_LAYOUT_INVALID: u32 = 0xffff_ffff;

pub const XKB_LEVEL_INVALID: u32 = 0xffff_ffff;

pub const XKB_MOD_INVALID: u32 = 0xffff_ffff;

pub const XKB_LED_INVALID: u32 = 0xffff_ffff;

pub const XKB_KEYCODE_MAX: u32 = 0xffff_fffe;

/// Whether `key` is a key code at all: any value but the "no key" sentinel.
#[must_use]
pub fn xkb_keycode_is_legal_ext(key: u32) -> (legal: bool)
    ensures
        legal == (key <= XKB_KEYCODE_MAX),
        legal == (key != XKB_KEYCODE_INVALID),
{
    key <= XKB_KEYCODE_MAX
}

/// Whether `key` is a key code that the X11 protocol can carry: one of 8 to
/// 255.
#[must_use]
pub fn xkb_keycode_is_legal_x11(key: u32) -> (legal: bool)
    ensures
        legal == (8 <= key <= 255),
{
    8 <= key && key <= 255
}

pub type xkb_keysym_flags = u32;

pub const XKB_KEYSYM_NO_FLAGS: u32 = 0;

pub const XKB_KEYSYM_CASE_INSENSITIVE: u32 = 1 << 0;

pub type xkb_context_flags = u32;

pub const XKB_CONTEXT_NO_FLAGS: u32 = 0;

pub const XKB_CONTEXT_NO_DEFAULT_INCLUDES: u32 = 1 << 0;

pub const XKB_CONTEXT_NO_ENVIRONMENT_NAMES: u32 = 1 << 1;

/// The levels at which the engine logs.
#[derive(Clone, Copy, Debug, PartialEq, Eq, Structural)]
pub enum xkb_log_level {
    CRITICAL,
    ERROR,
    WARNING,
    INFO,
    DEBUG,
}

impl xkb_log_level {
    /// The number that the engine gives to this level.
    pub open spec fn spec_value(self) -> i32 {
        match self {
            xkb_log_level::CRITICAL => 10,
            xkb_log_level::ERROR => 20,
            xkb_log_level::WARNING => 30,
            xkb_log_level::INFO => 40,
            xkb_log_level::DEBUG => 50,
        }
    }

    /// The number that the engine gives to this level.
    pub fn value(self) -> (v: i32)
        ensures
            v == self.spec_value(),
    {
        match self {
            xkb_log_level::CRITICAL => 10,
            xkb_log_level::ERROR => 20,
            xkb_log_level::WARNING => 30,
            xkb_log_level::INFO => 40,
            xkb_log_level::DEBUG => 50,
        }
    }

    /// The level that the engine gives the number `v` to, if there is one.
    pub fn from_value(v: i32) -> (level: Option<xkb_log_level>)
        ensures
            level is Some <==> v == 10 || v == 20 || v == 30 || v == 40 || v == 50,
            level matches Some(l) ==> l.spec_value() == v,
    {
        if v == 10 {
            Some(xkb_log_level::CRITICAL)
        } else if v == 20 {
            Some(xkb_log_level::ERROR)
        } else if v == 30 {
            Some(xkb_log_level::WARNING)
        } else if v == 40 {
            Some(xkb_log_level::INFO)
        } else if v == 50 {
            Some(xkb_log_level::DEBUG)
        } else {
            None
        }
    }
}

pub type xkb_keymap_compile_flags = u32;

pub const XKB_KEYMAP_COMPILE_NO_FLAGS: u32 = 0;

pub type xkb_keymap_format = u32;

pub const XKB_KEYMAP_FORMAT_TEXT_V1: u32 = 1;

pub const XKB_KEYMAP_FORMAT_USE_ORIGINAL: u32 = 0xffff_ffff;

/// The two ways a key can move.
#[derive(Clone, Copy, Debug, PartialEq, Eq, Structural)]
pub enum xkb_key_direction {
    UP,
    DOWN,
}

impl xkb_key_direction {
    /// The number that the engine gives to this direction.
    pub open spec fn spec_value(self) -> u32 {
        match self {
            xkb_key_direction::UP => 0,
            xkb_key_direction::DOWN => 1,
        }
    }

    /// The number that the engine gives to this direction.
    pub fn value(self) -> (v: u32)
        ensures
            v == self.spec_value(),
    {
        match self {
            xkb_key_direction::UP => 0,
            xkb_key_direction::DOWN => 1,
        }
    }
}

pub type xkb_state_component = u32;

pub const XKB_STATE_MODS_DEPRESSED: u32 = 1 << 0;

pub const XKB_STATE_MODS_LATCHED: u32 = 1 << 1;

pub const XKB_STATE_MODS_LOCKED: u32 = 1 << 2;

pub const XKB_STATE_MODS_EFFECTIVE: u32 = 1 << 3;

pub const XKB_STATE_LAYOUT_DEPRESSED: u32 = 1 << 4;

pub const XKB_STATE_LAYOUT_LATCHED: u32 = 1 << 5;

pub const XKB_STATE_LAYOUT_LOCKED: u32 = 1 << 6;

pub const XKB_STATE_LAYOUT_EFFECTIVE: u32 = 1 << 7;

pub const XKB_STATE_LEDS: u32 = 1 << 8;

pub type xkb_state_match = u32;

pub const XKB_STATE_MATCH_ANY: u32 = 1 << 0;

pub const XKB_STATE_MATCH_ALL: u32 = 1 << 1;

pub const XKB_STATE_MATCH_NON_EXCLUSIVE: u32 = 1 << 16;

} // verus!
