//! Key codes and key symbols made from the raw values of the engine.
//!
//! The engine speaks in 32-bit numbers. Two of them are sentinels: zero for
//! "no symbol" and `KEYCODE_INVALID` for "no key". The functions here turn
//! the numbers into `Keysym` and `Keycode` values and the sentinels into
//! `None`.
use vstd::prelude::*;
use xkeysym::{KeyCode, Keysym, RawKeyCode, RawKeysym};

verus! {

/// `xkeysym::Keysym`, declared so that it can stand in signatures. Nothing is
/// known of what is inside but through `keysym_raw`.
#[verifier::external_type_specification]
#[verifier::external_body]
pub struct ExKeysym(xkeysym::Keysym);

/// `xkeysym::KeyCode`, declared so that it can stand in signatures. Nothing
/// is known of what is inside but through `keycode_raw`.
#[verifier::external_type_specification]
#[verifier::external_body]
pub struct ExKeyCode(xkeysym::KeyCode);

/// The raw value inside a key symbol: what `Keysym::raw` returns for it.
pub uninterp spec fn keysym_raw(keysym: Keysym) -> u32;

/// The raw value inside a key code: what `KeyCode::raw` returns for it.
pub uninterp spec fn keycode_raw(keycode: KeyCode) -> u32;

/// `Keysym::new` stores the raw value as it is, so that `Keysym::raw`
/// returns it again.
pub assume_specification[ Keysym::new ](raw: RawKeysym) -> (keysym: Keysym)
    ensures
        keysym_raw(keysym) == raw,
;

/// `Keysym::raw` returns the raw value inside the key symbol.
pub assume_specification[ Keysym::raw ](keysym: Keysym) -> (raw: RawKeysym)
    ensures
        raw == keysym_raw(keysym),
;

/// `KeyCode::new` stores the raw value as it is, so that `KeyCode::raw`
/// returns it again.
pub assume_specification[ KeyCode::new ](raw: RawKeyCode) -> (keycode: KeyCode)
    ensures
        keycode_raw(keycode) == raw,
;

/// `KeyCode::raw` returns the raw value inside the key code.
pub assume_specification[ KeyCode::raw ](keycode: KeyCode) -> (raw: RawKeyCode)
    ensures
        raw == keycode_raw(keycode),
;

/// The raw value by which the engine says "no symbol".
pub const NO_SYMBOL_RAW: u32 = 0;

/// The raw value by which the engine says "no key".
pub const NO_KEYCODE_RAW: u32 = 0xffff_ffff;

/// The key symbol that the engine returned as `raw`, or `None` where `raw`
/// says "no symbol".
pub fn keysym_or_none(raw: u32) -> (keysym: Option<Keysym>)
    ensures
        keysym is None <==> raw == NO_SYMBOL_RAW,
        keysym matches Some(k) ==> keysym_raw(k) == raw,
{
    let keysym = Keysym::new(raw);
    if keysym.raw() == NO_SYMBOL_RAW {
        None
    } else {
        Some(keysym)
    }
}

/// The key code that the engine returned as `raw`, or `None` where `raw`
/// says "no key".
pub fn keycode_or_none(raw: u32) -> (keycode: Option<KeyCode>)
    ensures
        keycode is None <==> raw == NO_KEYCODE_RAW,
        keycode matches Some(k) ==> keycode_raw(k) == raw,
{
    let keycode = KeyCode::new(raw);
    if keycode.raw() == NO_KEYCODE_RAW {
        None
    } else {
        Some(keycode)
    }
}

/// The length of the array of raw key symbols that the engine returned
/// together with `count`: as many as it counted, and none where the count is
/// not positive.
pub fn symbol_count(count: i32) -> (len: usize)
    ensures
        len == if count > 0 {
            count as int
        } else {
            0
        },
{
    if count > 0 {
        count as usize
    } else {
        0
    }
}

/// The key symbols that the engine returned for a key, in its order: one for
/// each raw value, and none where the engine returned no array.
pub fn keysyms_from_raw(raw: Option<&[u32]>) -> (syms: Vec<Keysym>)
    ensures
        raw is None ==> syms@.len() == 0,
        raw matches Some(r) ==> syms@.len() == r@.len() && forall|i: int|
            0 <= i < r@.len() ==> keysym_raw(#[trigger] syms@[i]) == r@[i],
{
    let mut syms: Vec<Keysym> = Vec::new();
    if let Some(r) = raw {
        let mut i: usize = 0;
        while i < r.len()
            invariant
                i <= r@.len(),
                syms@.len() == i,
                forall|j: int| 0 <= j < i ==> keysym_raw(#[trigger] syms@[j]) == r@[j],
            decreases r@.len() - i,
        {
            syms.push(Keysym::new(r[i]));
            i += 1;
        }
    }
    syms
}

} // verus!
