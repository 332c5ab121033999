use vstd::prelude::*;

verus! {

/// The query parameters of an authorization request.
#[derive(Clone, Debug)]
pub struct AuthorizeQuery {
    pub client_id: String,
    pub redirect_uri: String,
    pub state: String,
}

/// The parameters of a token request; the code may arrive in the query
/// string or in the form body.
#[derive(Clone, Debug)]
pub struct TokenQuery {
    pub code: Option<String>,
}

} // verus!
