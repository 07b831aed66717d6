use xkbcommon::xkb::x11::ffi::{
    xkb_x11_setup_xkb_extension_flags, XKB_X11_MIN_MAJOR_XKB_VERSION,
    XKB_X11_MIN_MINOR_XKB_VERSION,
};
use xkbcommon::xkb::x11::{SetupXkbExtensionFlags, MIN_MAJOR_XKB_VERSION, MIN_MINOR_XKB_VERSION};

#[test]
fn the_least_xkb_version_is_1_0() {
    assert_eq!(MIN_MAJOR_XKB_VERSION, 1);
    assert_eq!(MIN_MINOR_XKB_VERSION, 0);
    assert_eq!(XKB_X11_MIN_MAJOR_XKB_VERSION, MIN_MAJOR_XKB_VERSION);
    assert_eq!(XKB_X11_MIN_MINOR_XKB_VERSION, MIN_MINOR_XKB_VERSION);
}

#[test]
fn no_flags_is_zero() {
    assert_eq!(
        SetupXkbExtensionFlags::NoFlags.to_ffi(),
        xkb_x11_setup_xkb_extension_flags::NO_FLAGS
    );
    assert_eq!(SetupXkbExtensionFlags::NoFlags.to_ffi().value(), 0);
}
