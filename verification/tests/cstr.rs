use xkbcommon::xkb::cstr::{c_string, first_nul};

#[test]
fn first_nul_of_empty_is_none() {
    assert_eq!(first_nul(b""), None);
}

#[test]
fn first_nul_without_zero_is_none() {
    assert_eq!(first_nul(b"Shift"), None);
}

#[test]
fn first_nul_finds_the_first_of_several() {
    assert_eq!(first_nul(b"\0"), Some(0));
    assert_eq!(first_nul(b"ab\0cd"), Some(2));
    assert_eq!(first_nul(b"ab\0cd\0"), Some(2));
    assert_eq!(first_nul(b"abcd\0"), Some(4));
}

#[test]
fn c_string_of_a_plain_name() {
    assert_eq!(c_string(b"Mod1"), Some(b"Mod1\0".to_vec()));
    assert_eq!(c_string(b""), Some(vec![0u8]));
    assert_eq!(c_string("Caps Lock".as_bytes()), Some(b"Caps Lock\0".to_vec()));
}

#[test]
fn c_string_refuses_a_zero_byte() {
    assert_eq!(c_string(b"Mod\01"), None);
    assert_eq!(c_string(b"\0"), None);
    assert_eq!(c_string(b"Mod1\0"), None);
}

#[test]
fn a_name_is_read_back_from_its_c_string() {
    let names: [&[u8]; 4] = [b"", b"AD01", b"Scroll Lock", "é".as_bytes()];
    for name in names {
        let buf = c_string(name).unwrap();
        let end = first_nul(&buf).unwrap();
        assert_eq!(end, name.len());
        assert_eq!(&buf[..end], name);
        assert_eq!(buf.len(), name.len() + 1);
    }
}
