//! Turning an interpreter's output bytes into text.

use vstd::prelude::*;

verus! {

/// The text that `String::from_utf8_lossy` makes of `bytes`.
pub uninterp spec fn utf8_lossy(bytes: Seq<u8>) -> Seq<char>;

/// The text that encoding_rs's GBK decoder makes of `bytes`, with byte order
/// mark sniffing and malformed sequences replaced.
pub uninterp spec fn gbk_decode(bytes: Seq<u8>) -> Seq<char>;

/// `std::string::FromUtf8Error`, the error of `String::from_utf8`.
#[verifier::external_type_specification]
#[verifier::external_body]
pub struct ExFromUtf8Error(std::string::FromUtf8Error);

/// Calls `String::from_utf8`. Claims what its documentation says: it
/// succeeds exactly on valid UTF-8, and then holds the decoded text.
#[verifier::external_body]
fn string_from_utf8(bytes: Vec<u8>) -> (r: Result<String, std::string::FromUtf8Error>)
    ensures
        r is Ok <==> vstd::utf8::valid_utf8(bytes@),
        r matches Ok(s) ==> s@ == vstd::utf8::decode_utf8(bytes@),
{
    String::from_utf8(bytes)
}

/// Calls `String::from_utf8_lossy`. Claims that the result is the function
/// `utf8_lossy` of the bytes, and, as its documentation says, the decoded
/// text where the bytes are valid UTF-8. What it makes of invalid
/// sequences (U+FFFD replacements) is left unsaid.
#[verifier::external_body]
pub(crate) fn string_from_utf8_lossy(bytes: &[u8]) -> (r: String)
    ensures
        r@ == utf8_lossy(bytes@),
        vstd::utf8::valid_utf8(bytes@) ==> r@ == vstd::utf8::decode_utf8(bytes@),
{
    String::from_utf8_lossy(bytes).into_owned()
}

/// Calls encoding_rs's `Encoding::decode` on `GBK` and keeps the text.
/// Claims only that the text is the function `gbk_decode` of the bytes;
/// the GBK tables are left unsaid.
#[verifier::external_body]
fn gbk_decode_bytes(bytes: &[u8]) -> (r: String)
    ensures
        r@ == gbk_decode(bytes@),
{
    let (text, _, _) = encoding_rs::GBK.decode(bytes);
    text.into_owned()
}

/// The text of an interpreter's output: the bytes read as UTF-8 where they
/// are valid UTF-8, else read as GBK.
pub fn decode_output(bytes: Vec<u8>) -> (r: String)
    ensures
        vstd::utf8::valid_utf8(bytes@) ==> r@ == vstd::utf8::decode_utf8(bytes@),
        !vstd::utf8::valid_utf8(bytes@) ==> r@ == gbk_decode(bytes@),
{
    let copy = bytes.clone();
    proof {
        assert forall|i: int| 0 <= i < copy@.len() implies copy@[i] == bytes@[i] by {
            assert(cloned(bytes[i], copy[i]));
        }
        assert(copy@ =~= bytes@);
    }
    match string_from_utf8(copy) {
        Ok(s) => s,
        Err(_) => gbk_decode_bytes(bytes.as_slice()),
    }
}

} // verus!
