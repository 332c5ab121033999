use vstd::prelude::*;

verus! {

/// A lowercase hexadecimal digit.
pub open spec fn is_hex_char(c: char) -> bool {
    ('0' <= c && c <= '9') || ('a' <= c && c <= 'f')
}

/// The shape of a freshly minted token: 32 lowercase hexadecimal
/// characters, carrying the 122 random bits of a version-4 UUID.
pub open spec fn is_token_shape(s: Seq<char>) -> bool {
    &&& s.len() == 32
    &&& forall|i: int| 0 <= i < s.len() ==> is_hex_char(#[trigger] s[i])
}

/// Relies on uuid::Uuid::new_v4, rendered with uuid's simple formatter:
/// 122 random bits as exactly 32 lowercase hexadecimal characters. The
/// value is random; nothing beyond its shape is promised.
#[verifier::external_body]
pub(crate) fn fresh_token() -> (token: String)
    ensures
        is_token_shape(token@),
        token.is_ascii(),
{
    uuid::Uuid::new_v4().simple().to_string()
}

} // verus!
