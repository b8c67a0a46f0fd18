//! Bytes as text.

use vstd::prelude::*;

verus! {

/// The error of `std::str::from_utf8`, which says where the text breaks off.
#[verifier::external_type_specification]
#[verifier::external_body]
pub struct ExUtf8Error(std::str::Utf8Error);

/// `std::str::from_utf8` accepts exactly the valid UTF-8 strings, and the text
/// it returns has the bytes that it was given.
pub assume_specification[ std::str::from_utf8 ](v: &[u8]) -> (text: Result<
    &str,
    std::str::Utf8Error,
>)
    ensures
        text is Ok <==> vstd::utf8::valid_utf8(v@),
        text matches Ok(s) ==> vstd::utf8::encode_utf8(s@) == v@,
;

/// Whether `err` is what `std::str::from_utf8` reports of these bytes.
pub open spec fn is_utf8_fault(bytes: Seq<u8>, err: std::str::Utf8Error) -> bool {
    exists|slice: &[u8]|
        slice@ == bytes && #[trigger] call_ensures(
            std::str::from_utf8,
            (slice,),
            Err::<&str, std::str::Utf8Error>(err),
        )
}

/// What `String::from_utf8_lossy` makes of these bytes.
pub uninterp spec fn lossy_text(bytes: Seq<u8>) -> Seq<char>;

/// The bytes as text for a reader, by `String::from_utf8_lossy`: valid UTF-8 is
/// kept as it is, and what is not is replaced.
#[verifier::external_body]
pub(crate) fn shown_bytes(bytes: &[u8]) -> (text: String)
    ensures
        text@ == lossy_text(bytes@),
        vstd::utf8::valid_utf8(bytes@) ==> vstd::utf8::encode_utf8(text@) == bytes@,
{
    String::from_utf8_lossy(bytes).into_owned()
}

} // verus!
