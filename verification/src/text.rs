use vstd::prelude::*;

verus! {

/// Relies on std's String::from_utf8: it succeeds exactly on valid UTF-8,
/// and the returned string is the one whose UTF-8 encoding is the given
/// bytes.
#[verifier::external_body]
pub(crate) fn bytes_to_string(bytes: Vec<u8>) -> (r: Option<String>)
    ensures
        (r is Some) <==> vstd::utf8::valid_utf8(bytes@),
        (r matches Some(s) ==> vstd::utf8::encode_utf8(s@) == bytes@),
{
    match String::from_utf8(bytes) {
        Ok(s) => Some(s),
        Err(_) => None,
    }
}

/// Two strings with the same UTF-8 encoding are the same string.
pub proof fn lemma_encoding_determines_string(a: Seq<char>, b: Seq<char>)
    requires
        vstd::utf8::encode_utf8(a) == vstd::utf8::encode_utf8(b),
    ensures
        a == b,
{
    vstd::utf8::encode_utf8_decode_utf8(a);
    vstd::utf8::encode_utf8_decode_utf8(b);
}

} // verus!
