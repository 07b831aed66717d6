//! Names as the engine takes them: byte buffers that end in a zero byte.
//!
//! The engine reads a name from the start of a buffer up to the first zero
//! byte. The functions here build such buffers from the bytes of a name and
//! say what the engine will read from them.
use vstd::prelude::*;

verus! {

/// Whether some byte of `s` is zero.
pub open spec fn has_nul(s: Seq<u8>) -> bool {
    exists|i: int| 0 <= i < s.len() && s[i] == 0
}

/// The bytes of `s` before its first zero byte; all of `s` where it has none.
/// This is what a reader that stops at the first zero byte reads from `s`.
pub open spec fn until_nul(s: Seq<u8>) -> Seq<u8>
    decreases s.len(),
{
    if s.len() == 0 || s[0] == 0 {
        Seq::empty()
    } else {
        seq![s[0]] + until_nul(s.drop_first())
    }
}

/// Whether `s` is a name together with its terminator: its last byte is zero
/// and no other byte is.
pub open spec fn is_terminated(s: Seq<u8>) -> bool {
    s.len() > 0 && s[s.len() - 1] == 0 && !has_nul(s.drop_last())
}

/// What is read from `s` is a prefix of `s`, holds no zero byte, and is
/// followed in `s` by a zero byte unless it is all of `s`.
pub proof fn lemma_until_nul_is_prefix(s: Seq<u8>)
    ensures
        until_nul(s).len() <= s.len(),
        until_nul(s) == s.take(until_nul(s).len() as int),
        !has_nul(until_nul(s)),
        until_nul(s).len() < s.len() ==> s[until_nul(s).len() as int] == 0,
        until_nul(s).len() == s.len() <==> !has_nul(s),
    decreases s.len(),
{
    if s.len() == 0 || s[0] == 0 {
        assert(until_nul(s) =~= s.take(0));
        if s.len() > 0 {
            assert(0 <= 0 < s.len() && s[0] == 0);
        }
    } else {
        let rest = s.drop_first();
        let read = until_nul(rest);
        lemma_until_nul_is_prefix(rest);
        assert(until_nul(s) =~= s.take(read.len() as int + 1)) by {
            assert(read == rest.take(read.len() as int));
            assert forall|i: int| 0 <= i < read.len() + 1 implies until_nul(s)[i] == s[i] by {
                if i > 0 {
                    assert(read[i - 1] == rest.take(read.len() as int)[i - 1]);
                    assert(rest[i - 1] == s[i]);
                }
            }
        }
        if has_nul(until_nul(s)) {
            let i = choose|i: int| 0 <= i < until_nul(s).len() && until_nul(s)[i] == 0;
            assert(read[i - 1] == 0);
            assert(has_nul(read));
        }
        if has_nul(s) {
            let i = choose|i: int| 0 <= i < s.len() && s[i] == 0;
            assert(rest[i - 1] == 0);
            assert(has_nul(rest));
        }
        if has_nul(rest) {
            let i = choose|i: int| 0 <= i < rest.len() && rest[i] == 0;
            assert(s[i + 1] == 0);
            assert(has_nul(s));
        }
    }
}

/// A name without a zero byte is read back whole from the buffer that holds
/// it followed by a zero byte.
pub proof fn lemma_terminated_name_reads_back(name: Seq<u8>)
    requires
        !has_nul(name),
    ensures
        is_terminated(name.push(0)),
        until_nul(name.push(0)) == name,
    decreases name.len(),
{
    let buf = name.push(0);
    assert(buf.drop_last() =~= name);
    if name.len() == 0 {
        assert(until_nul(buf) =~= name);
    } else {
        let rest = name.drop_first();
        assert(name[0] != 0);
        if has_nul(rest) {
            let i = choose|i: int| 0 <= i < rest.len() && rest[i] == 0;
            assert(name[i + 1] == 0);
        }
        lemma_terminated_name_reads_back(rest);
        assert(buf.drop_first() =~= rest.push(0));
        assert(until_nul(buf) =~= name);
    }
}

/// The position of the first zero byte of `bytes`, if it has one.
pub fn first_nul(bytes: &[u8]) -> (at: Option<usize>)
    ensures
        at is None <==> !has_nul(bytes@),
        at matches Some(i) ==> i < bytes@.len() && bytes@[i as int] == 0 && i == until_nul(
            bytes@,
        ).len(),
{
    let mut i: usize = 0;
    while i < bytes.len()
        invariant
            i <= bytes@.len(),
            forall|j: int| 0 <= j < i ==> bytes@[j] != 0,
        decreases bytes@.len() - i,
    {
        if bytes[i] == 0 {
            proof {
                lemma_until_nul_is_prefix(bytes@);
                let n = until_nul(bytes@).len() as int;
                if n > i {
                    assert(until_nul(bytes@)[i as int] == bytes@.take(n)[i as int]);
                    assert(0 <= i < until_nul(bytes@).len() && until_nul(bytes@)[i as int] == 0);
                }
            }
            return Some(i);
        }
        i += 1;
    }
    None
}

/// The bytes followed by a zero byte.
pub(crate) fn terminate(bytes: &[u8]) -> (buf: Vec<u8>)
    ensures
        buf@ == bytes@.push(0),
{
    let mut buf: Vec<u8> = Vec::with_capacity(bytes.len());
    let mut i: usize = 0;
    while i < bytes.len()
        invariant
            i <= bytes@.len(),
            buf@ == bytes@.take(i as int),
        decreases bytes@.len() - i,
    {
        buf.push(bytes[i]);
        assert(bytes@.take(i as int).push(bytes@[i as int]) =~= bytes@.take(i + 1));
        i += 1;
    }
    assert(bytes@.take(bytes@.len() as int) =~= bytes@);
    buf.push(0);
    buf
}

/// The name `bytes` as the engine takes it: followed by a zero byte, given
/// that `bytes` holds none. A name that holds a zero byte cannot be handed
/// to the engine whole, and gets no buffer.
pub fn c_string(bytes: &[u8]) -> (buf: Option<Vec<u8>>)
    ensures
        buf is Some <==> !has_nul(bytes@),
        buf matches Some(b) ==> b@ == bytes@.push(0) && is_terminated(b@) && until_nul(b@)
            == bytes@,
{
    match first_nul(bytes) {
        Some(_) => None,
        None => {
            proof {
                lemma_terminated_name_reads_back(bytes@);
            }
            Some(terminate(bytes))
        },
    }
}

} // verus!
