//! Text that arrives as bytes.

use core::str::Utf8Error;
use vstd::prelude::*;
use vstd::string::*;
use vstd::utf8::*;

use crate::error::{Error, ErrorView};

verus! {

/// The error of `core::str::from_utf8`. It is carried through as it is; only
/// its message is read.
#[verifier::external_type_specification]
#[verifier::external_body]
pub struct ExUtf8Error(Utf8Error);

/// Taken on trust of `core::str::from_utf8`: it accepts exactly the byte
/// sequences that are valid UTF-8, and the text it returns is encoded by the
/// very bytes it was given.
pub assume_specification[ core::str::from_utf8 ](bytes: &[u8]) -> (text: Result<&str, Utf8Error>)
    ensures
        text is Ok <==> valid_utf8(bytes@),
        text matches Ok(s) ==> s.spec_bytes() == bytes@,
;

/// Reads `bytes` as text. Bytes that are not valid UTF-8 are refused with
/// [`Error::InvalidUtf8`], whose text is the standard library's account of
/// what is wrong with them.
pub fn decode(bytes: &[u8]) -> (text: Result<&str, Error>)
    ensures
        text is Ok <==> valid_utf8(bytes@),
        text matches Ok(s) ==> s@ == decode_utf8(bytes@),
        text matches Err(error) ==> error@ is InvalidUtf8,
{
    match core::str::from_utf8(bytes) {
        Ok(s) => {
            proof {
                encode_utf8_decode_utf8(s@);
            }
            Ok(s)
        },
        Err(cause) => Err(Error::invalid_utf8(cause.to_string())),
    }
}

} // verus!
