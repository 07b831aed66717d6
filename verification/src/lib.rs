//! Verified core of a binding to the xkbcommon keyboard-mapping engine.
pub mod xkb;
