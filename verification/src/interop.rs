use vstd::prelude::*;
use crate::wstring::{wide_units, CxxWString};

verus! {

#[verifier::external_type_specification]
#[verifier::external_body]
pub struct ExU32CString(widestring::U32CString);

#[verifier::external_type_specification]
#[verifier::external_body]
pub struct ExUtf32String(widestring::Utf32String);

/// The wide-character units a `U32CString` holds, its nul terminator left
/// out.
pub uninterp spec fn u32cstring_units(s: &widestring::U32CString) -> Seq<u32>;

/// The wide-character units a `Utf32String` holds.
pub uninterp spec fn utf32string_units(s: &widestring::Utf32String) -> Seq<u32>;

/// Relies on `widestring::U32CString::as_slice` (through its unsized
/// borrowed form): the string's units, without the terminating nul.
#[verifier::external_body]
fn u32cstring_as_slice(s: &widestring::U32CString) -> (r: &[u32])
    ensures
        r@ == u32cstring_units(s),
{
    s.as_slice()
}

/// Relies on `widestring::Utf32String::as_slice`: all of the string's
/// units.
#[verifier::external_body]
fn utf32string_as_slice(s: &widestring::Utf32String) -> (r: &[u32])
    ensures
        r@ == utf32string_units(s),
{
    s.as_slice()
}

impl CxxWString {
    /// Unit-wise equality against a `U32CString`, comparing raw unit
    /// sequences without decoding either side.
    pub fn eq_u32cstring(&self, other: &widestring::U32CString) -> (r: bool)
        ensures
            r == (wide_units(self@) == u32cstring_units(other)),
    {
        self.eq_wide_units(u32cstring_as_slice(other))
    }

    /// Unit-wise equality against a `Utf32String`, comparing raw unit
    /// sequences without decoding either side.
    pub fn eq_utf32string(&self, other: &widestring::Utf32String) -> (r: bool)
        ensures
            r == (wide_units(self@) == utf32string_units(other)),
    {
        self.eq_wide_units(utf32string_as_slice(other))
    }
}

} // verus!
