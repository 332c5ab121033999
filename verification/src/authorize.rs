use vstd::prelude::*;

use crate::compare::ct_eq_str;
use crate::config::OAuthConfig;
use crate::errors::AuthError;
use crate::issuer::issue_code;
use crate::issuer::issued_post;
use crate::queries::AuthorizeQuery;
use crate::session::Session;
use crate::store::store_map;
use crate::store::CodeStore;

verus! {

/// What the authorization entry point answers a relying party.
#[derive(Debug)]
pub enum AuthorizeOutcome {
    /// No verified identity on this session yet: serve the login page.
    ShowLogin,
    /// The session is verified: send the relying party back to its
    /// callback, carrying its `state` and the issued code.
    Redirect { url: String, code: String },
}

/// Whether the authorization request names the configured relying party.
pub open spec fn spec_authorize_ok(query: AuthorizeQuery, oauth: OAuthConfig) -> bool {
    query.client_id@ == oauth.client_id@ && query.redirect_uri@ == oauth.redirect_uri@
}

/// The callback URL a verified session is redirected to.
pub open spec fn spec_redirect_url(oauth: OAuthConfig, state: Seq<char>, code: Seq<char>) -> Seq<
    char,
> {
    oauth.redirect_uri@ + "?state="@ + state + "&code="@ + code
}

/// The authorization entry point's decision.
///
/// A request whose `client_id` or `redirect_uri` is not the configured
/// one is rejected before anything else happens. An unverified session
/// gets the login page; a verified one gets a code (minted once,
/// reissued unchanged on retries) and the callback redirect carrying it.
pub fn authorize(
    query: &AuthorizeQuery,
    oauth: &OAuthConfig,
    session: &Session,
    now: u64,
    store: &mut CodeStore,
) -> (r: Result<AuthorizeOutcome, AuthError>)
    ensures
        ({
            let ok = spec_authorize_ok(*query, *oauth);
            let m0 = store_map(*old(store));
            let m1 = store_map(*final(store));
            &&& (!ok ==> r == Err::<AuthorizeOutcome, AuthError>(AuthError::ClientMismatch) && m1
                == m0)
            &&& (ok && session.identity is None ==> r == Ok::<AuthorizeOutcome, AuthError>(
                AuthorizeOutcome::ShowLogin,
            ) && m1 == m0)
            &&& (ok && session.identity is Some ==> match r {
                Ok(AuthorizeOutcome::Redirect { url, code }) => issued_post(
                    m0,
                    m1,
                    session.identity->0,
                    now,
                    code@,
                ) && url@ == spec_redirect_url(*oauth, query.state@, code@),
                Ok(AuthorizeOutcome::ShowLogin) => false,
                Err(e) => e == AuthError::StoreUnavailable,
            })
        }),
{
    if !ct_eq_str(query.client_id.as_str(), oauth.client_id.as_str()) {
        return Err(AuthError::ClientMismatch);
    }
    if !ct_eq_str(query.redirect_uri.as_str(), oauth.redirect_uri.as_str()) {
        return Err(AuthError::ClientMismatch);
    }
    match session.identity {
        None => Ok(AuthorizeOutcome::ShowLogin),
        Some(identity) => {
            let code = issue_code(store, identity, now)?;
            let mut url = oauth.redirect_uri.clone();
            url.append("?state=");
            url.append(query.state.as_str());
            url.append("&code=");
            url.append(code.as_str());
            Ok(AuthorizeOutcome::Redirect { url, code })
        },
    }
}

} // verus!
