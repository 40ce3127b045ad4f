//! Exact UTF-8 validity.

use vstd::prelude::*;
use vstd::string::StringSliceAdditionalSpecFns;
use vstd::utf8::valid_utf8;

verus! {

/// The error of `core::str::from_utf8`, carried through unread.
#[verifier::external_type_specification]
#[verifier::external_body]
pub struct ExUtf8Error(core::str::Utf8Error);

/// `core::str::from_utf8` succeeds exactly on the well-formed UTF-8 byte
/// sequences, and the string it returns has the bytes it was given.
pub assume_specification[ core::str::from_utf8 ](v: &[u8]) -> (res: Result<
    &str,
    core::str::Utf8Error,
>)
    ensures
        res.is_ok() == valid_utf8(v@),
        res matches Ok(s) ==> s.spec_bytes() == v@,
;

/// Whether `data` is well-formed UTF-8 as a whole.
pub fn is_utf8(data: &[u8]) -> (res: bool)
    ensures
        res == valid_utf8(data@),
{
    core::str::from_utf8(data).is_ok()
}

/// The empty buffer is well-formed UTF-8.
pub proof fn law_empty_is_utf8()
    ensures
        valid_utf8(Seq::<u8>::empty()),
{
}

} // verus!
