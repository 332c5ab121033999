use vstd::prelude::*;
use vstd::bytes::spec_u32_to_le_bytes;
use vstd::bytes::spec_u64_to_le_bytes;
use vstd::bytes::u32_to_le_bytes;
use vstd::bytes::u64_to_le_bytes;

use crate::compare::ct_eq_bytes;
use crate::errors::AuthError;
use crate::random::fresh_token;
use crate::random::is_token_shape;
use crate::session::Session;
use crate::store::store_map;
use crate::store::CodeStore;
use crate::text::bytes_to_string;

verus! {

/// The store key under which a code is cross-referenced for an identity:
/// the identity as four little-endian bytes. Identity keys are four bytes
/// and code keys thirty-two, so the two entry families never collide.
pub open spec fn identity_key(identity: u32) -> Seq<u8> {
    spec_u32_to_le_bytes(identity)
}

/// The authoritative value stored under a code: the bound identity as
/// four little-endian bytes followed by the issue instant as eight, so
/// that redemption can enforce the code's own validity window.
pub open spec fn code_value(identity: u32, issued_at: u64) -> Seq<u8> {
    spec_u32_to_le_bytes(identity) + spec_u64_to_le_bytes(issued_at)
}

/// The code the store already holds for `identity`, provided the pair of
/// entries is intact: the reverse entry must name a code whose
/// authoritative entry points back at this identity, and the code must be
/// a well-formed string. Anything less reads as "no code yet".
pub open spec fn reissuable_code(m: Map<Seq<u8>, Seq<u8>>, identity: u32) -> Option<Seq<u8>> {
    let ik = identity_key(identity);
    if m.contains_key(ik) && m.contains_key(m[ik]) && m[m[ik]].len() == 12 && m[m[ik]].subrange(
        0,
        4,
    ) == ik && vstd::utf8::valid_utf8(m[ik]) {
        Some(m[ik])
    } else {
        None
    }
}

/// What a successful issue leaves behind: both entry directions point at
/// each other, and either the store already held the code (then nothing
/// changed) or a fresh token-shaped code was written at instant `now`,
/// authoritative entry included.
pub open spec fn issued_post(
    m0: Map<Seq<u8>, Seq<u8>>,
    m1: Map<Seq<u8>, Seq<u8>>,
    identity: u32,
    now: u64,
    code: Seq<char>,
) -> bool {
    let ck = vstd::utf8::encode_utf8(code);
    let ik = identity_key(identity);
    &&& m1.contains_key(ck) && m1[ck].len() == 12 && m1[ck].subrange(0, 4) == ik
    &&& m1.contains_key(ik) && m1[ik] == ck
    &&& match reissuable_code(m0, identity) {
        Some(existing) => ck == existing && m1 == m0,
        None => is_token_shape(code) && m1 == m0.insert(ck, code_value(identity, now)).insert(
            ik,
            ck,
        ),
    }
}

/// Mints or re-hands-out the authorization code for a verified identity.
///
/// If the store still holds an intact, unconsumed code for this identity,
/// that code is returned and nothing changes (idempotent reissue, for a
/// relying party that retries the redirect). Otherwise a fresh
/// high-entropy code is minted, stamped with `now`, and both directions
/// are written, the authoritative `code -> identity` entry first, so that
/// an interruption between the writes can only lose the optimization,
/// never the grant.
pub fn issue_code(store: &mut CodeStore, identity: u32, now: u64) -> (r: Result<String, AuthError>)
    ensures
        (r matches Ok(code) ==> issued_post(
            store_map(*old(store)),
            store_map(*final(store)),
            identity,
            now,
            code@,
        )),
        (r matches Err(e) ==> e == AuthError::StoreUnavailable),
{
    let ik = u32_to_le_bytes(identity);
    let reissue: Option<String> = match store.fetch(ik.as_slice()) {
        Err(_) => {
            return Err(AuthError::StoreUnavailable);
        },
        Ok(None) => None,
        Ok(Some(code_bytes)) => match store.fetch(code_bytes.as_slice()) {
            Err(_) => {
                return Err(AuthError::StoreUnavailable);
            },
            Ok(None) => None,
            Ok(Some(back)) => {
                if back.len() == 12 && ct_eq_bytes(&back.as_slice()[0..4], ik.as_slice()) {
                    bytes_to_string(code_bytes)
                } else {
                    None
                }
            },
        },
    };
    match reissue {
        Some(code) => Ok(code),
        None => {
            let code = fresh_token();
            let code_bytes = code.as_str().as_bytes_vec();
            let mut value = u32_to_le_bytes(identity);
            let mut stamp = u64_to_le_bytes(now);
            value.append(&mut stamp);
            proof {
                vstd::utf8::is_ascii_chars_encode_utf8(code@);
                vstd::bytes::lemma_auto_spec_u32_to_from_le_bytes();
                vstd::bytes::lemma_auto_spec_u64_to_from_le_bytes();
                assert(value@.subrange(0, 4) =~= spec_u32_to_le_bytes(identity));
            }
            match store.put(code_bytes.as_slice(), value.as_slice()) {
                Err(_) => {
                    return Err(AuthError::StoreUnavailable);
                },
                Ok(_) => {},
            }
            match store.put(ik.as_slice(), code_bytes.as_slice()) {
                Err(_) => {
                    return Err(AuthError::StoreUnavailable);
                },
                Ok(_) => {},
            }
            Ok(code)
        },
    }
}

/// The code issuer's session-facing face: a code is never returned for
/// an unverified session. With an identity bound it behaves exactly as
/// `issue_code` for that identity.
pub fn issue_code_for_session(store: &mut CodeStore, session: &Session, now: u64) -> (r: Result<
    String,
    AuthError,
>)
    ensures
        session.identity is None ==> r == Err::<String, AuthError>(AuthError::NotVerified)
            && store_map(*final(store)) == store_map(*old(store)),
        session.identity matches Some(identity) ==> {
            &&& (r matches Ok(code) ==> issued_post(
                store_map(*old(store)),
                store_map(*final(store)),
                identity,
                now,
                code@,
            ))
            &&& (r matches Err(e) ==> e == AuthError::StoreUnavailable)
        },
{
    match session.identity {
        None => Err(AuthError::NotVerified),
        Some(identity) => issue_code(store, identity, now),
    }
}

/// Issuing is idempotent: the pair of entries a successful issue leaves
/// behind is exactly what a later issue for the same identity finds and
/// hands out again, so the same code comes back until it is consumed.
pub proof fn lemma_issue_idempotent(m: Map<Seq<u8>, Seq<u8>>, identity: u32, code: Seq<char>)
    requires
        m.contains_key(vstd::utf8::encode_utf8(code)),
        m[vstd::utf8::encode_utf8(code)].len() == 12,
        m[vstd::utf8::encode_utf8(code)].subrange(0, 4) == identity_key(identity),
        m.contains_key(identity_key(identity)),
        m[identity_key(identity)] == vstd::utf8::encode_utf8(code),
    ensures
        reissuable_code(m, identity) == Some(vstd::utf8::encode_utf8(code)),
{
    vstd::utf8::encode_utf8_valid_utf8(code);
}

} // verus!
