use vstd::prelude::*;
use vstd::bytes::spec_u32_to_le_bytes;
use vstd::bytes::spec_u64_to_le_bytes;

use crate::errors::AuthError;
use crate::exchange::exchange_next;
use crate::exchange::exchange_outcome;
use crate::exchange::CODE_VALIDITY_IN_SECONDS;
use crate::issuer::code_value;
use crate::issuer::issued_post;
use crate::issuer::reissuable_code;
use crate::orchestrator::non_self_member;
use crate::orchestrator::poll_next;
use crate::session::Session;

verus! {

/// A session after a whole run of membership polls, one observed member
/// list at a time.
pub open spec fn poll_trace(s: Session, trace: Seq<Seq<u32>>, self_id: u32) -> Session
    decreases trace.len(),
{
    if trace.len() == 0 {
        s
    } else {
        poll_trace(poll_next(s, trace[0], self_id), trace.drop_first(), self_id)
    }
}

/// The identity a run of polls ends up bound to: the one already bound,
/// or else the non-self member of the first two-member observation made
/// while a channel exists.
pub open spec fn first_binding(s: Session, trace: Seq<Seq<u32>>, self_id: u32) -> Option<u32>
    decreases trace.len(),
{
    if s.identity is Some {
        s.identity
    } else if trace.len() == 0 {
        None
    } else if s.channel is Some && trace[0].len() == 2 {
        Some(non_self_member(trace[0], self_id))
    } else {
        first_binding(s, trace.drop_first(), self_id)
    }
}

/// Over any run of polls, whatever the platform reports, the session
/// ends bound to exactly the non-self member of the first two-member
/// observation — the first join wins, later observations never rebind,
/// and no other count ever binds anything.
pub proof fn lemma_first_join_binds(s: Session, trace: Seq<Seq<u32>>, self_id: u32)
    ensures
        poll_trace(s, trace, self_id).identity == first_binding(s, trace, self_id),
    decreases trace.len(),
{
    if trace.len() > 0 {
        let s1 = poll_next(s, trace[0], self_id);
        lemma_first_join_binds(s1, trace.drop_first(), self_id);
        if s1.identity is Some {
            lemma_trace_keeps_identity(s1, trace.drop_first(), self_id);
        }
    }
}

/// Once bound, a run of polls of any length keeps the identity.
pub proof fn lemma_trace_keeps_identity(s: Session, trace: Seq<Seq<u32>>, self_id: u32)
    requires
        s.identity is Some,
    ensures
        poll_trace(s, trace, self_id).identity == s.identity,
    decreases trace.len(),
{
    if trace.len() > 0 {
        lemma_trace_keeps_identity(poll_next(s, trace[0], self_id), trace.drop_first(), self_id);
    }
}

/// The end-to-end identity guarantee, across the orchestrator, the code
/// issuer and the token exchanger: when a join is observed in a
/// two-member channel, a fresh code is issued for the session, and that
/// code is exchanged inside its validity window, then the asserted
/// identity is exactly the channel member who joined — never the
/// system's own identity, never anyone else's — and the exchange leaves
/// the code dead.
pub proof fn lemma_exchange_asserts_joined_member(
    s: Session,
    members: Seq<u32>,
    self_id: u32,
    m0: Map<Seq<u8>, Seq<u8>>,
    m1: Map<Seq<u8>, Seq<u8>>,
    issued_at: u64,
    redeemed_at: u64,
    code: Seq<char>,
)
    requires
        s.channel is Some,
        s.identity is None,
        members.len() == 2,
        reissuable_code(m0, poll_next(s, members, self_id).identity->0) is None,
        issued_post(m0, m1, poll_next(s, members, self_id).identity->0, issued_at, code),
        redeemed_at < issued_at + CODE_VALIDITY_IN_SECONDS,
    ensures
        exchange_outcome(true, m1, vstd::utf8::encode_utf8(code), redeemed_at) == Ok::<
            u32,
            AuthError,
        >(non_self_member(members, self_id)),
        !exchange_next(true, m1, vstd::utf8::encode_utf8(code)).contains_key(
            vstd::utf8::encode_utf8(code),
        ),
{
    let identity = non_self_member(members, self_id);
    let ck = vstd::utf8::encode_utf8(code);
    vstd::bytes::lemma_auto_spec_u32_to_from_le_bytes();
    vstd::bytes::lemma_auto_spec_u64_to_from_le_bytes();
    assert(poll_next(s, members, self_id).identity == Some(identity));
    assert(crate::random::is_token_shape(code));
    assert forall|i: int| 0 <= i < code.len() implies '\0' <= #[trigger] code[i] <= '\u{7f}' by {
        assert(crate::random::is_hex_char(code[i]));
    }
    assert(vstd::utf8::is_ascii_chars(code));
    vstd::utf8::is_ascii_chars_encode_utf8(code);
    assert(ck.len() == 32);
    assert(m1[ck] == code_value(identity, issued_at));
    assert(code_value(identity, issued_at).subrange(0, 4) =~= spec_u32_to_le_bytes(identity));
    assert(code_value(identity, issued_at).subrange(4, 12) =~= spec_u64_to_le_bytes(issued_at));
}

} // verus!
