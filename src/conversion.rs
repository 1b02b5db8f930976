//! Conversion of text to nul-terminated byte strings.
//!
//! A text that already ends in a terminator (and holds no other nul byte) is
//! handed on as it is, without an allocation. Any other text is copied once
//! into a buffer with room for exactly one more byte, the terminator.

use std::borrow::Cow;
use vstd::prelude::*;
use vstd::utf8::encode_utf8;

verus! {

/// Why a text could not become a nul-terminated byte string.
#[derive(Debug, Clone, Copy, PartialEq, Eq, Structural)]
pub enum CStrConversionError {
    /// The text ended in a terminator, but held another nul byte at this index.
    FromBytesWithNul(usize),
    /// The text had no terminator and held a nul byte at this index.
    Nul(usize),
    /// The bytes were to be a C string already, but did not end in a terminator.
    NotNulTerminated,
}

/// The bytes end in a nul terminator.
pub open spec fn ends_with_nul(b: Seq<u8>) -> bool {
    b.len() > 0 && b.last() == 0
}

/// The bytes before the terminator, or all of them where there is none.
pub open spec fn body_of(b: Seq<u8>) -> Seq<u8> {
    if ends_with_nul(b) {
        b.drop_last()
    } else {
        b
    }
}

/// Some byte is a nul.
pub open spec fn has_nul(b: Seq<u8>) -> bool {
    exists|i: int| 0 <= i < b.len() && b[i] == 0
}

/// `i` is the index of the first nul byte.
pub open spec fn is_first_nul(b: Seq<u8>, i: int) -> bool {
    &&& 0 <= i < b.len()
    &&& b[i] == 0
    &&& forall|j: int| 0 <= j < i ==> b[j] != 0
}

/// A well-formed C string: a terminator at the end and nowhere else.
pub open spec fn is_c_string(b: Seq<u8>) -> bool {
    ends_with_nul(b) && !has_nul(b.drop_last())
}

/// The C string that a text with these bytes becomes, when it becomes one.
pub open spec fn c_string_of(b: Seq<u8>) -> Seq<u8> {
    body_of(b).push(0)
}

/// `e` is the error reported for a text with these bytes.
pub open spec fn conversion_error(b: Seq<u8>, e: CStrConversionError) -> bool {
    match e {
        CStrConversionError::FromBytesWithNul(p) => ends_with_nul(b) && is_first_nul(b.drop_last(), p as int),
        CStrConversionError::Nul(p) => !ends_with_nul(b) && is_first_nul(b, p as int),
        CStrConversionError::NotNulTerminated => false,
    }
}

/// The index of the first nul byte among the first `end` bytes.
pub fn find_nul(bytes: &[u8], end: usize) -> (r: Option<usize>)
    requires
        end <= bytes@.len(),
    ensures
        match r {
            Some(p) => is_first_nul(bytes@.subrange(0, end as int), p as int),
            None => !has_nul(bytes@.subrange(0, end as int)),
        },
{
    let mut i: usize = 0;
    while i < end
        invariant
            i <= end <= bytes@.len(),
            forall|j: int| 0 <= j < i ==> bytes@[j] != 0,
        decreases end - i,
    {
        if bytes[i] == 0 {
            return Some(i);
        }
        i = i + 1;
    }
    None
}

/// Checks that the bytes form a C string: one terminator, at the end.
pub fn check_c_string(bytes: &[u8]) -> (r: Result<(), CStrConversionError>)
    ensures
        r is Ok <==> is_c_string(bytes@),
        r matches Err(e) ==> if ends_with_nul(bytes@) {
            conversion_error(bytes@, e)
        } else {
            e == CStrConversionError::NotNulTerminated
        },
{
    let n = bytes.len();
    if n == 0 || bytes[n - 1] != 0 {
        Err(CStrConversionError::NotNulTerminated)
    } else {
        match find_nul(bytes, n - 1) {
            Some(p) => {
                assert(bytes@.subrange(0, n - 1) =~= bytes@.drop_last());
                Err(CStrConversionError::FromBytesWithNul(p))
            },
            None => {
                assert(bytes@.subrange(0, n - 1) =~= bytes@.drop_last());
                Ok(())
            },
        }
    }
}

/// `r` is what converting `string` gives: the C string of its bytes, borrowed
/// exactly where the text was borrowed and already terminated; or, where a
/// nul byte stands before the intended terminator, the error that says where.
pub open spec fn converts_to(string: Cow<str>, r: Result<Cow<[u8]>, CStrConversionError>) -> bool {
    let b = encode_utf8(string@);
    match r {
        Ok(c) => {
            &&& !has_nul(body_of(b))
            &&& c@ == c_string_of(b)
            &&& (c is Borrowed <==> (string is Borrowed && ends_with_nul(b)))
        },
        Err(e) => has_nul(body_of(b)) && conversion_error(b, e),
    }
}

/// A borrowed text that already ends in its terminator, with no other nul
/// byte, is handed back as it is: borrowed, no allocation.
pub proof fn lemma_terminated_text_is_not_copied(
    string: Cow<str>,
    r: Result<Cow<[u8]>, CStrConversionError>,
)
    requires
        converts_to(string, r),
        string is Borrowed,
        is_c_string(encode_utf8(string@)),
    ensures
        r matches Ok(c) && c is Borrowed && c@ == encode_utf8(string@),
{
    let b = encode_utf8(string@);
    assert(b.drop_last().push(0) =~= b);
}

/// A text without a trailing terminator (and with no nul byte) becomes a
/// buffer of exactly one byte more: its bytes and the terminator.
pub proof fn lemma_unterminated_text_gains_one_byte(
    string: Cow<str>,
    r: Result<Cow<[u8]>, CStrConversionError>,
)
    requires
        converts_to(string, r),
        !ends_with_nul(encode_utf8(string@)),
        !has_nul(encode_utf8(string@)),
    ensures
        r matches Ok(c) && c@.len() == encode_utf8(string@).len() + 1 && c@ == encode_utf8(
            string@,
        ).push(0),
{
}

/// A text with a nul byte before its intended terminator is refused.
pub proof fn lemma_interior_nul_is_refused(
    string: Cow<str>,
    r: Result<Cow<[u8]>, CStrConversionError>,
)
    requires
        converts_to(string, r),
        has_nul(body_of(encode_utf8(string@))),
    ensures
        r is Err,
{
}

/// Relies on `String::into_bytes`: the bytes are the text's UTF-8 encoding.
#[verifier::external_body]
fn string_into_bytes(s: String) -> (r: Vec<u8>)
    ensures
        r@ == encode_utf8(s@),
{
    s.into_bytes()
}

/// Converts a borrowed or owned text into the equivalent C string.
///
/// A borrowed text that already ends in a terminator is handed back as it
/// is (no allocation). Any other borrowed text is copied into a buffer made
/// with room for its bytes and the terminator. An owned text keeps its own
/// buffer and gets the terminator appended where it lacks one.
///
/// Fails where a nul byte stands anywhere before the intended terminator.
pub fn convert_to_cstring<'s>(string: Cow<'s, str>) -> (r: Result<Cow<'s, [u8]>, CStrConversionError>)
    ensures
        converts_to(string, r),
{
    match string {
        Cow::Borrowed(s) => {
            let bytes = s.as_bytes();
            let n = bytes.len();
            if n > 0 && bytes[n - 1] == 0 {
                match find_nul(bytes, n - 1) {
                    Some(p) => {
                        assert(bytes@.subrange(0, n - 1) =~= bytes@.drop_last());
                        Err(CStrConversionError::FromBytesWithNul(p))
                    },
                    None => {
                        assert(bytes@.subrange(0, n - 1) =~= bytes@.drop_last());
                        assert(bytes@.drop_last().push(0) =~= bytes@);
                        Ok(Cow::Borrowed(bytes))
                    },
                }
            } else {
                match find_nul(bytes, n) {
                    Some(p) => {
                        assert(bytes@.subrange(0, n as int) =~= bytes@);
                        Err(CStrConversionError::Nul(p))
                    },
                    None => {
                        assert(bytes@.subrange(0, n as int) =~= bytes@);
                        let capacity = if n < usize::MAX {
                            n + 1
                        } else {
                            n
                        };
                        let mut v: Vec<u8> = Vec::with_capacity(capacity);
                        v.extend_from_slice(bytes);
                        assert(v@ =~= bytes@);
                        v.push(0);
                        Ok(Cow::Owned(v))
                    },
                }
            }
        },
        Cow::Owned(s) => {
            let mut v = string_into_bytes(s);
            let n = v.len();
            if n > 0 && v[n - 1] == 0 {
                match find_nul(v.as_slice(), n - 1) {
                    Some(p) => {
                        assert(v@.subrange(0, n - 1) =~= v@.drop_last());
                        Err(CStrConversionError::FromBytesWithNul(p))
                    },
                    None => {
                        assert(v@.subrange(0, n - 1) =~= v@.drop_last());
                        assert(v@.drop_last().push(0) =~= v@);
                        Ok(Cow::Owned(v))
                    },
                }
            } else {
                match find_nul(v.as_slice(), n) {
                    Some(p) => {
                        assert(v@.subrange(0, n as int) =~= v@);
                        Err(CStrConversionError::Nul(p))
                    },
                    None => {
                        assert(v@.subrange(0, n as int) =~= v@);
                        v.push(0);
                        Ok(Cow::Owned(v))
                    },
                }
            }
        },
    }
}

} // verus!
