//! The compose part of the binding: the locale as the engine takes it, and
//! what is made of the engine's answers about a compose sequence.
use vstd::prelude::*;
use vstd::slice::slice_to_vec;
use vstd::utf8::{decode_utf8, valid_utf8};

use super::cstr::{
    first_nul,
    has_nul,
    is_terminated,
    lemma_terminated_name_reads_back,
    lemma_until_nul_is_prefix,
    terminate,
    until_nul,
};
use super::text::{text_from_buffer, TextError};

verus! {

pub type CompileFlags = u32;

pub const COMPILE_NO_FLAGS: CompileFlags = 0;

pub type Format = u32;

pub const FORMAT_TEXT_V1: Format = 1;

pub type StateFlags = u32;

pub const STATE_NO_FLAGS: StateFlags = 0;

/// The size of the buffer that the engine fills with the text of a composed
/// sequence.
pub const UTF8_SIZE: usize = 256;

/// Where a compose state stands in a sequence.
#[derive(Clone, Copy, Debug, PartialEq, Eq, Structural)]
pub enum Status {
    Nothing,
    Composing,
    Composed,
    Cancelled,
}

impl Status {
    /// The number that the engine gives to this status.
    pub open spec fn spec_value(self) -> u32 {
        match self {
            Status::Nothing => 0,
            Status::Composing => 1,
            Status::Composed => 2,
            Status::Cancelled => 3,
        }
    }

    /// The status that the engine reported as the number `value`, if it is
    /// one of the four.
    pub fn from_value(value: u32) -> (status: Option<Status>)
        ensures
            status is Some <==> value <= 3,
            status matches Some(s) ==> s.spec_value() == value,
    {
        if value == 0 {
            Some(Status::Nothing)
        } else if value == 1 {
            Some(Status::Composing)
        } else if value == 2 {
            Some(Status::Composed)
        } else if value == 3 {
            Some(Status::Cancelled)
        } else {
            None
        }
    }
}

/// What a compose state did with a key symbol that it was fed.
#[derive(Clone, Copy, Debug, PartialEq, Eq, Structural)]
pub enum FeedResult {
    Ignored,
    Accepted,
}

impl FeedResult {
    /// The number that the engine gives to this result.
    pub open spec fn spec_value(self) -> u32 {
        match self {
            FeedResult::Ignored => 0,
            FeedResult::Accepted => 1,
        }
    }

    /// The result that the engine reported as the number `value`, if it is
    /// one of the two.
    pub fn from_value(value: u32) -> (result: Option<FeedResult>)
        ensures
            result is Some <==> value <= 1,
            result matches Some(r) ==> r.spec_value() == value,
    {
        if value == 0 {
            Some(FeedResult::Ignored)
        } else if value == 1 {
            Some(FeedResult::Accepted)
        } else {
            None
        }
    }
}

/// The locale as the engine takes it. A locale that already ends in the only
/// zero byte it holds is taken as it is; one without a zero byte gets one
/// appended; any other cannot be handed to the engine. Either way the
/// engine reads the locale up to that zero byte.
pub fn locale_c_string(locale: &[u8]) -> (buf: Option<Vec<u8>>)
    ensures
        buf is Some <==> is_terminated(locale@) || !has_nul(locale@),
        buf matches Some(b) ==> {
            &&& is_terminated(b@)
            &&& b@ == if is_terminated(locale@) {
                locale@
            } else {
                locale@.push(0)
            }
            &&& until_nul(b@) == until_nul(locale@)
        },
{
    proof {
        lemma_until_nul_is_prefix(locale@);
    }
    let len: usize = locale.len();
    match first_nul(locale) {
        None => {
            proof {
                lemma_terminated_name_reads_back(locale@);
                if locale@.len() > 0 && locale@[locale@.len() - 1] == 0 {
                    assert(has_nul(locale@));
                }
                assert(locale@.take(locale@.len() as int) =~= locale@);
            }
            Some(terminate(locale))
        },
        Some(i) => {
            if i + 1 == len {
                assert(locale@.drop_last() =~= locale@.take(i as int));
                Some(slice_to_vec(locale))
            } else {
                proof {
                    if is_terminated(locale@) {
                        assert(locale@.drop_last()[i as int] == 0);
                    }
                }
                None
            }
        },
    }
}

/// The text of a composed sequence, from the buffer that the engine filled
/// and the count that it returned. A count of zero says that there is no
/// text.
pub fn composed_text(buf: &[u8], count: i32) -> (text: Result<Option<String>, TextError>)
    ensures
        match text {
            Ok(None) => count == 0,
            Ok(Some(s)) => 0 < count <= buf@.len() && valid_utf8(buf@.take(count as int)) && s@
                == decode_utf8(buf@.take(count as int)),
            Err(TextError::Count) => !(0 <= count <= buf@.len()),
            Err(TextError::Encoding) => 0 < count <= buf@.len() && !valid_utf8(
                buf@.take(count as int),
            ),
        },
{
    if count == 0 {
        return Ok(None);
    }
    match text_from_buffer(buf, count) {
        Ok(s) => Ok(Some(s)),
        Err(e) => Err(e),
    }
}

} // verus!
