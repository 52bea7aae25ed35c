//! Helpers on the text fields of a stub.

use std::borrow::Cow;
use vstd::prelude::*;
use vstd::string::StringSliceAdditionalSpecFns;
use vstd::utf8::encode_utf8_decode_utf8;

verus! {

/// The text of a field that is either borrowed or owned.
pub(crate) fn text<'a>(field: &'a Cow<'static, str>) -> (s: &'a str)
    ensures
        s@ == field@,
{
    match field {
        Cow::Borrowed(borrowed) => borrowed,
        Cow::Owned(owned) => owned.as_str(),
    }
}

/// The text of an optional field that is either borrowed or owned.
pub(crate) fn optional_text<'a>(field: &'a Option<Cow<'static, str>>) -> (s: Option<&'a str>)
    ensures
        s.deep_view() == field.deep_view(),
{
    match field {
        Some(inner) => Some(text(inner)),
        None => None,
    }
}

/// A copy of a field that is either borrowed or owned: a borrowed field stays
/// borrowed, an owned one is duplicated.
pub(crate) fn copy_text(field: &Cow<'static, str>) -> (copy: Cow<'static, str>)
    ensures
        copy == *field,
{
    match field {
        Cow::Borrowed(borrowed) => Cow::Borrowed(*borrowed),
        Cow::Owned(owned) => Cow::Owned(owned.clone()),
    }
}

/// Whether two strings hold the same characters.
///
/// The strings are compared byte by byte; equal encodings decode to equal
/// character sequences.
pub(crate) fn same_text(a: &str, b: &str) -> (same: bool)
    ensures
        same == (a@ == b@),
{
    let x = a.as_bytes();
    let y = b.as_bytes();
    if x.len() != y.len() {
        return false;
    }
    let mut i: usize = 0;
    while i < x.len()
        invariant
            x@ == a.spec_bytes(),
            y@ == b.spec_bytes(),
            x@.len() == y@.len(),
            i <= x@.len(),
            forall|k: int| 0 <= k < i ==> x@[k] == y@[k],
        decreases x@.len() - i,
    {
        if x[i] != y[i] {
            return false;
        }
        i += 1;
    }
    proof {
        assert(x@ =~= y@);
        encode_utf8_decode_utf8(a@);
        encode_utf8_decode_utf8(b@);
    }
    true
}

/// Whether two optional strings are both absent or hold the same characters.
pub(crate) fn same_optional_text(a: Option<&str>, b: Option<&str>) -> (same: bool)
    ensures
        same == (a.deep_view() == b.deep_view()),
{
    match (a, b) {
        (None, None) => true,
        (Some(x), Some(y)) => same_text(x, y),
        _ => false,
    }
}

} // verus!
