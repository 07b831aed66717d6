//! Text that the engine wrote, taken as strings.
//!
//! The engine hands text back in two ways: it fills a buffer of the caller
//! and returns a count of bytes, or it returns the bytes of a name of its
//! own, or none. Either way the bytes are checked to be UTF-8 before they
//! are taken as a string.
use vstd::prelude::*;
use vstd::slice::slice_subrange;
use vstd::utf8::{
    decode_utf8,
    decode_utf8_encode_utf8,
    encode_utf8,
    encode_utf8_decode_utf8,
    encode_utf8_valid_utf8,
    valid_utf8,
};

use super::cstr::{has_nul, lemma_terminated_name_reads_back, until_nul};

verus! {

/// Why bytes of the engine could not be taken as text.
#[derive(Clone, Copy, Debug, PartialEq, Eq, Structural)]
pub enum TextError {
    /// The count was negative, or larger than the buffer that was filled.
    Count,
    /// The bytes are not well-formed UTF-8.
    Encoding,
}

/// `core::str::from_utf8` of the standard library: the same bytes as a
/// string slice, or nothing where they are not well-formed UTF-8.
#[verifier::external_body]
fn str_from_utf8<'a>(bytes: &'a [u8]) -> (text: Option<&'a str>)
    ensures
        text is Some <==> valid_utf8(bytes@),
        text matches Some(s) ==> encode_utf8(s@) == bytes@,
{
    core::str::from_utf8(bytes).ok()
}

/// The string that `bytes` encode.
pub fn text_from_bytes<'a>(bytes: &'a [u8]) -> (text: Result<&'a str, TextError>)
    ensures
        match text {
            Ok(s) => valid_utf8(bytes@) && s@ == decode_utf8(bytes@),
            Err(e) => !valid_utf8(bytes@) && e == TextError::Encoding,
        },
{
    match str_from_utf8(bytes) {
        Some(s) => {
            proof {
                encode_utf8_decode_utf8(s@);
            }
            Ok(s)
        },
        None => Err(TextError::Encoding),
    }
}

/// The string that the first `count` bytes of `buf` encode, where `count` is
/// what the engine returned after it filled `buf`.
pub fn text_from_buffer(buf: &[u8], count: i32) -> (text: Result<String, TextError>)
    ensures
        match text {
            Ok(s) => 0 <= count <= buf@.len() && valid_utf8(buf@.take(count as int)) && s@
                == decode_utf8(buf@.take(count as int)),
            Err(TextError::Count) => !(0 <= count <= buf@.len()),
            Err(TextError::Encoding) => 0 <= count <= buf@.len() && !valid_utf8(
                buf@.take(count as int),
            ),
        },
{
    if count < 0 {
        return Err(TextError::Count);
    }
    let n: usize = count as usize;
    if n > buf.len() {
        return Err(TextError::Count);
    }
    match text_from_bytes(slice_subrange(buf, 0, n)) {
        Ok(s) => Ok(s.to_owned()),
        Err(e) => Err(e),
    }
}

/// The name of a key symbol, from the buffer that the engine filled and the
/// count that it returned. A negative count says that the engine knows no
/// such key symbol: its name is the empty string.
pub fn keysym_name_from_buffer(buf: &[u8], count: i32) -> (text: Result<String, TextError>)
    ensures
        match text {
            Ok(s) => if count < 0 {
                s@ == Seq::<char>::empty()
            } else {
                count <= buf@.len() && valid_utf8(buf@.take(count as int)) && s@ == decode_utf8(
                    buf@.take(count as int),
                )
            },
            Err(TextError::Count) => count > buf@.len(),
            Err(TextError::Encoding) => 0 <= count <= buf@.len() && !valid_utf8(
                buf@.take(count as int),
            ),
        },
{
    if count < 0 {
        Ok(String::new())
    } else {
        text_from_buffer(buf, count)
    }
}

/// The name that the engine gave for an index: the string that its bytes
/// encode, and the empty string where it gave none.
pub fn name_or_empty<'a>(name: Option<&'a [u8]>) -> (text: Result<&'a str, TextError>)
    ensures
        match (name, text) {
            (None, Ok(s)) => s@ == Seq::<char>::empty(),
            (None, Err(_)) => false,
            (Some(bytes), Ok(s)) => valid_utf8(bytes@) && s@ == decode_utf8(bytes@),
            (Some(bytes), Err(e)) => !valid_utf8(bytes@) && e == TextError::Encoding,
        },
{
    match name {
        None => {
            proof {
                reveal_strlit("");
            }
            assert(""@ =~= Seq::<char>::empty());
            Ok("")
        },
        Some(bytes) => text_from_bytes(bytes),
    }
}

/// The name that the engine gave for a key, if it gave one.
pub fn optional_name<'a>(name: Option<&'a [u8]>) -> (text: Result<Option<&'a str>, TextError>)
    ensures
        match (name, text) {
            (None, Ok(t)) => t is None,
            (None, Err(_)) => false,
            (Some(bytes), Ok(t)) => valid_utf8(bytes@) && (t matches Some(s) && s@ == decode_utf8(
                bytes@,
            )),
            (Some(bytes), Err(e)) => !valid_utf8(bytes@) && e == TextError::Encoding,
        },
{
    match name {
        None => Ok(None),
        Some(bytes) => match text_from_bytes(bytes) {
            Ok(s) => Ok(Some(s)),
            Err(e) => Err(e),
        },
    }
}

/// A name that is handed to the engine and comes back from it arrives as it
/// left: where the UTF-8 encoding of `name` holds no zero byte, what the
/// engine reads from the terminated buffer is well-formed UTF-8 that
/// decodes to `name`.
pub proof fn lemma_name_survives_the_engine(name: Seq<char>)
    requires
        !has_nul(encode_utf8(name)),
    ensures
        valid_utf8(until_nul(encode_utf8(name).push(0))),
        decode_utf8(until_nul(encode_utf8(name).push(0))) == name,
{
    lemma_terminated_name_reads_back(encode_utf8(name));
    encode_utf8_valid_utf8(name);
    encode_utf8_decode_utf8(name);
}

/// Text that the engine wrote and that is handed back to it arrives as it
/// was written: where `bytes` are well-formed UTF-8 without a zero byte,
/// the engine reads the same bytes from the terminated encoding of the
/// string that they decode to.
pub proof fn lemma_text_survives_the_binding(bytes: Seq<u8>)
    requires
        valid_utf8(bytes),
        !has_nul(bytes),
    ensures
        until_nul(encode_utf8(decode_utf8(bytes)).push(0)) == bytes,
{
    decode_utf8_encode_utf8(bytes);
    lemma_terminated_name_reads_back(bytes);
}

} // verus!
