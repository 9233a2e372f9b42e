use vstd::prelude::*;
use crate::error::UrgError;

verus! {

/// The text that a byte sequence spells when read as UTF-8, or `None` when the
/// bytes are not well-formed UTF-8.
pub uninterp spec fn utf8_text(bytes: Seq<u8>) -> Option<Seq<char>>;

/// Whether a byte sequence is well-formed UTF-8.
pub open spec fn is_text(bytes: Seq<u8>) -> bool {
    utf8_text(bytes) is Some
}

/// The text spelt by well-formed UTF-8 bytes.
pub open spec fn text_of(bytes: Seq<u8>) -> Seq<char> {
    utf8_text(bytes).unwrap()
}

/// Relies on bstr's `TryFrom<BString> for String` (that is,
/// `bstr::ByteVec::into_string`): it succeeds exactly when the bytes are valid
/// UTF-8 and then holds the text they spell; otherwise the error's `Display`
/// text is handed back.
#[verifier::external_body]
fn utf8_to_string(bytes: Vec<u8>) -> (r: Result<String, String>)
    ensures
        match r {
            Ok(s) => utf8_text(bytes@) == Some(s@),
            Err(_) => utf8_text(bytes@) is None,
        },
{
    match String::try_from(bstr::BString::from(bytes)) {
        Ok(s) => Ok(s),
        Err(e) => Err(format!("{}", e)),
    }
}

/// Decodes one text field of a driver record. A field that is not valid UTF-8
/// is a text-decode failure.
pub fn decode_field(bytes: Vec<u8>) -> (r: Result<String, UrgError>)
    ensures
        is_text(bytes@) <==> r is Ok,
        r is Ok ==> r->Ok_0@ == text_of(bytes@),
        r is Err ==> r->Err_0 is TextDecode,
{
    match utf8_to_string(bytes) {
        Ok(s) => Ok(s),
        Err(message) => Err(UrgError::TextDecode { message }),
    }
}

} // verus!
