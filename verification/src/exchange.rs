use vstd::prelude::*;
use vstd::bytes::spec_u32_from_le_bytes;
use vstd::bytes::spec_u64_from_le_bytes;
use vstd::bytes::u32_from_le_bytes;
use vstd::bytes::u64_from_le_bytes;
use vstd::string::StringSliceAdditionalSpecFns;

use crate::compare::ct_eq_str;
use crate::config::OAuthConfig;
use crate::errors::AuthError;
use crate::queries::TokenQuery;
use crate::random::fresh_token;
use crate::random::is_token_shape;
use crate::store::store_map;
use crate::store::CodeStore;

verus! {

/// How long an authorization code stays redeemable after it was issued,
/// in seconds. A code is one redirect round trip away from redemption,
/// so its window is far shorter than the session's lifetime.
pub const CODE_VALIDITY_IN_SECONDS: u64 = 300;

/// The identity assertion handed back for a consumed code. The bearer
/// token is a one-shot carrier consumed immediately by the relying
/// party's back-channel call, so its declared lifetime is minimal.
#[derive(Debug)]
pub struct TokenGrant {
    /// The identity the consumed code was bound to.
    pub identity: u32,
    /// A fresh high-entropy bearer token value.
    pub access_token: String,
    /// Declared token lifetime in seconds.
    pub expires_in: u32,
}

/// The code a token request carries: the query string wins, the form
/// body is the fallback, and a request carrying neither has no code.
pub fn select_code(query: &TokenQuery, form: &TokenQuery) -> (r: Option<String>)
    ensures
        r == (if query.code is Some {
            query.code
        } else {
            form.code
        }),
{
    match &query.code {
        Some(code) => Some(code.clone()),
        None => match &form.code {
            Some(code) => Some(code.clone()),
            None => None,
        },
    }
}

/// Whether the presented client credentials are the configured ones.
pub open spec fn spec_client_ok(oauth: OAuthConfig, id: Seq<char>, secret: Seq<char>) -> bool {
    id == oauth.client_id@ && secret == oauth.client_secret@
}

/// Client authentication alone. It takes nothing but the configuration
/// and the presented credentials, so a mismatch is decided before any
/// store can be looked at; both comparisons run in constant time and
/// both always run.
pub fn authenticate_client(oauth: &OAuthConfig, client_id: &str, client_secret: &str) -> (ok:
    bool)
    ensures
        ok == spec_client_ok(*oauth, client_id@, client_secret@),
{
    let id_ok = ct_eq_str(client_id, oauth.client_id.as_str());
    let secret_ok = ct_eq_str(client_secret, oauth.client_secret.as_str());
    id_ok && secret_ok
}

/// A stored code value past its validity window at instant `now`. The
/// issue instant sits in the last eight bytes of the authoritative entry.
pub open spec fn spec_code_stale(value: Seq<u8>, now: u64) -> bool
    recommends
        value.len() == 12,
{
    now >= spec_u64_from_le_bytes(value.subrange(4, 12)) + CODE_VALIDITY_IN_SECONDS
}

/// What a token exchange must answer, as a function of the client check,
/// the store contents, the presented code's bytes and the instant of the
/// attempt: the bound identity on success, and otherwise which error. A
/// store that cannot answer is the one case outside this function.
pub open spec fn exchange_outcome(ok: bool, m0: Map<Seq<u8>, Seq<u8>>, ck: Seq<u8>, now: u64) -> Result<
    u32,
    AuthError,
> {
    if !ok {
        Err(AuthError::ClientMismatch)
    } else if !m0.contains_key(ck) {
        Err(AuthError::InvalidGrant)
    } else if m0[ck].len() != 12 {
        Err(AuthError::InvariantViolation)
    } else if spec_code_stale(m0[ck], now) {
        Err(AuthError::InvalidGrant)
    } else {
        Ok(spec_u32_from_le_bytes(m0[ck].subrange(0, 4)))
    }
}

/// The store contents after a token exchange: consumption is part of the
/// same atomic lookup, and a rejected client leaves the store untouched.
/// A stale or malformed entry is consumed by the failed attempt, so it
/// cannot be replayed either.
pub open spec fn exchange_next(ok: bool, m0: Map<Seq<u8>, Seq<u8>>, ck: Seq<u8>) -> Map<
    Seq<u8>,
    Seq<u8>,
> {
    if !ok {
        m0
    } else if !m0.contains_key(ck) {
        m0
    } else {
        m0.remove(ck)
    }
}

/// Exchanges a single-use authorization code for an identity assertion.
///
/// Client authentication comes first and a mismatch returns before the
/// store is touched. The code entry is then consumed atomically with the
/// lookup: a missing (or already consumed) code is `InvalidGrant`, as is
/// one past its own validity window; a malformed stored entry is
/// `InvariantViolation`; and on success the code is gone, so the same
/// code can never be exchanged twice.
pub fn exchange(
    oauth: &OAuthConfig,
    client_id: &str,
    client_secret: &str,
    code: &str,
    now: u64,
    store: &mut CodeStore,
) -> (r: Result<TokenGrant, AuthError>)
    ensures
        ({
            let ok = spec_client_ok(*oauth, client_id@, client_secret@);
            let m0 = store_map(*old(store));
            let m1 = store_map(*final(store));
            let ck = code.spec_bytes();
            &&& (r == Err::<TokenGrant, AuthError>(AuthError::StoreUnavailable) ==> ok)
            &&& (r != Err::<TokenGrant, AuthError>(AuthError::StoreUnavailable) ==> {
                &&& m1 == exchange_next(ok, m0, ck)
                &&& match r {
                    Ok(grant) => {
                        &&& exchange_outcome(ok, m0, ck, now) == Ok::<u32, AuthError>(
                            grant.identity,
                        )
                        &&& grant.expires_in == 1
                        &&& is_token_shape(grant.access_token@)
                    },
                    Err(e) => exchange_outcome(ok, m0, ck, now) == Err::<u32, AuthError>(e),
                }
            })
        }),
{
    if !authenticate_client(oauth, client_id, client_secret) {
        return Err(AuthError::ClientMismatch);
    }
    match store.take(code.as_bytes()) {
        Err(_) => Err(AuthError::StoreUnavailable),
        Ok(None) => Err(AuthError::InvalidGrant),
        Ok(Some(value)) => {
            if value.len() != 12 {
                return Err(AuthError::InvariantViolation);
            }
            let issued_at = u64_from_le_bytes(&value.as_slice()[4..12]);
            let stale = if issued_at <= u64::MAX - CODE_VALIDITY_IN_SECONDS {
                now >= issued_at + CODE_VALIDITY_IN_SECONDS
            } else {
                // The stamp is so late that its window never closes.
                false
            };
            if stale {
                return Err(AuthError::InvalidGrant);
            }
            let identity = u32_from_le_bytes(&value.as_slice()[0..4]);
            let access_token = fresh_token();
            Ok(TokenGrant { identity, access_token, expires_in: 1 })
        },
    }
}

/// A code is redeemable at most once: after an exchange succeeds, the
/// same code against the resulting store yields `InvalidGrant`, at that
/// instant and at every later one. Of two racing exchanges the store's
/// atomic consume orders one after the other, so exactly one succeeds.
pub proof fn lemma_code_single_use(m: Map<Seq<u8>, Seq<u8>>, ck: Seq<u8>, now: u64, later: u64)
    requires
        exchange_outcome(true, m, ck, now) is Ok,
    ensures
        exchange_outcome(true, exchange_next(true, m, ck), ck, later) == Err::<u32, AuthError>(
            AuthError::InvalidGrant,
        ),
{
}

} // verus!
