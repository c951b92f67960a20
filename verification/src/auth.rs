//! The credential manager: when a bearer token is fetched, and what a reply
//! of the token endpoint does to the client's cache.

use vstd::prelude::*;
use crate::client::{Mpesa, MpesaView};
use crate::errors::{
    spec_error_payload, ApiError, AuthFailure, AuthFailureView, MpesaError, MpesaErrorView,
    MpesaResult,
};
use crate::http::{
    is_success, Authorization, AuthorizationView, HttpReply, HttpReplyView, HttpRequest,
    HttpRequestView, Method,
};
use crate::wire::{spec_text, WireFieldView};

verus! {

/// The path of the token endpoint, below the base URL.
pub const AUTHENTICATION_URL: &'static str = "/oauth/v1/generate?grant_type=client_credentials";

/// What a client has to do to have a bearer token.
#[derive(Debug, Clone, PartialEq, Eq)]
pub enum AuthAction {
    /// The cache holds a token: use it, and fetch nothing.
    UseCached { token: String },
    /// The cache is empty: perform this request and hand its reply to
    /// [`Mpesa::complete_auth`].
    Fetch { request: HttpRequest },
}

/// The contents of an [`AuthAction`].
pub enum AuthActionView {
    UseCached { token: Seq<char> },
    Fetch { request: HttpRequestView },
}

impl View for AuthAction {
    type V = AuthActionView;

    open spec fn view(&self) -> AuthActionView {
        match self {
            AuthAction::UseCached { token } => AuthActionView::UseCached { token: token@ },
            AuthAction::Fetch { request } => AuthActionView::Fetch { request: request@ },
        }
    }
}

/// The request that fetches a token for `client`: a `GET` of the token
/// endpoint of the client's deployment, with the client's identifier and
/// secret as HTTP Basic credentials and no body.
pub open spec fn spec_token_request(client: MpesaView) -> HttpRequestView {
    HttpRequestView {
        method: Method::Get,
        url: client.environment.spec_base_url() + AUTHENTICATION_URL@,
        authorization: AuthorizationView::Basic {
            username: client.client_key,
            password: client.client_secret,
        },
        body: None,
    }
}

/// What a client with the given cache has to do: use the cached token, or
/// fetch one where the cache is empty.
pub open spec fn spec_auth_action(client: MpesaView) -> AuthActionView {
    match client.token {
        Some(token) => AuthActionView::UseCached { token },
        None => AuthActionView::Fetch { request: spec_token_request(client) },
    }
}

/// The token in the body of a reply: the string under `access_token`.
pub open spec fn spec_access_token(body: Option<Seq<WireFieldView>>) -> Option<Seq<char>> {
    match body {
        Some(fields) => spec_text(fields, "access_token"@),
        None => None,
    }
}

/// What a reply of the token endpoint amounts to.
///
/// - No response: the endpoint was unreachable.
/// - A non-success status: the fetch was rejected, whatever the body holds.
/// - A success status with a token in the body: the token.
/// - A success status without one: the body could not be decoded.
pub open spec fn spec_fetch_outcome(reply: HttpReplyView) -> Result<Seq<char>, MpesaErrorView> {
    match reply {
        HttpReplyView::Failed { reason } => Err(
            MpesaErrorView::AuthenticationError(AuthFailureView::Unreachable(reason)),
        ),
        HttpReplyView::Response { status, body } => if !is_success(status) {
            Err(
                MpesaErrorView::AuthenticationError(
                    AuthFailureView::Rejected { status, error: spec_error_payload(body) },
                ),
            )
        } else {
            match spec_access_token(body) {
                Some(token) => Ok(token),
                None => Err(MpesaErrorView::DecodingError),
            }
        },
    }
}

/// What completing an authentication gives: the cached token where the cache
/// is populated already, else the outcome of the fetch.
pub open spec fn spec_auth_outcome(cached: Option<Seq<char>>, reply: HttpReplyView) -> Result<
    Seq<char>,
    MpesaErrorView,
> {
    match cached {
        Some(token) => Ok(token),
        None => spec_fetch_outcome(reply),
    }
}

/// The cache after completing an authentication: a populated cache stays as
/// it is, an empty one takes the token of a successful fetch and stays empty
/// after a failed one.
pub open spec fn spec_cache_after(cached: Option<Seq<char>>, reply: HttpReplyView) -> Option<
    Seq<char>,
> {
    match spec_auth_outcome(cached, reply) {
        Ok(token) => Some(token),
        Err(_) => None,
    }
}

/// The contents of the result of an authentication.
pub open spec fn token_result_view(result: MpesaResult<String>) -> Result<
    Seq<char>,
    MpesaErrorView,
> {
    match result {
        Ok(token) => Ok(token@),
        Err(error) => Err(error@),
    }
}

impl Mpesa {
    /// What this client has to do to have a bearer token.
    ///
    /// With a populated cache the answer is the cached token and nothing is
    /// fetched; with an empty one it is the request to the token endpoint.
    pub fn auth(&self) -> (action: AuthAction)
        ensures
            action@ == spec_auth_action(self@),
    {
        match &self.token {
            Some(token) => AuthAction::UseCached { token: token.clone() },
            None => {
                let url = String::from_str(self.environment.base_url()).concat(AUTHENTICATION_URL);
                AuthAction::Fetch {
                    request: HttpRequest {
                        method: Method::Get,
                        url,
                        authorization: Authorization::Basic {
                            username: self.client_key.clone(),
                            password: self.client_secret.clone(),
                        },
                        body: None,
                    },
                }
            },
        }
    }

    /// Takes the reply of the token endpoint and returns the bearer token.
    ///
    /// The cache is written only here, and only with the token of a complete,
    /// successfully decoded reply. A cache that holds a token already is left
    /// as it is and its token is returned, so a second fetch never overwrites
    /// the first. A failure is final for this call: nothing is retried.
    pub fn complete_auth(&mut self, reply: HttpReply) -> (result: MpesaResult<String>)
        ensures
            token_result_view(result) == spec_auth_outcome(old(self)@.token, reply@),
            final(self)@ == (MpesaView {
                token: spec_cache_after(old(self)@.token, reply@),
                ..old(self)@
            }),
    {
        match &self.token {
            Some(token) => {
                return Ok(token.clone());
            },
            None => {},
        }
        match reply {
            HttpReply::Failed { reason } => Err(
                MpesaError::AuthenticationError(AuthFailure::Unreachable(reason)),
            ),
            HttpReply::Response { status, body } => {
                if !is_success(status) {
                    let error = ApiError::from_body(&body);
                    return Err(
                        MpesaError::AuthenticationError(AuthFailure::Rejected { status, error }),
                    );
                }
                let token = match &body {
                    Some(object) => object.text("access_token"),
                    None => None,
                };
                match token {
                    Some(token) => {
                        self.token = Some(token.clone());
                        Ok(token)
                    },
                    None => Err(MpesaError::DecodingError),
                }
            },
        }
    }

    /// Empties the token cache, so that the next [`Mpesa::auth`] asks for a
    /// fresh token.
    pub fn refresh(&mut self)
        ensures
            final(self)@ == (MpesaView { token: None, ..old(self)@ }),
    {
        self.token = None;
    }
}

/// A client whose cache is empty fetches for itself: its action is the
/// request to the token endpoint of its own deployment, with its own
/// identifier and secret. Nothing is shared between two clients.
pub proof fn lemma_empty_cache_fetches(client: MpesaView)
    requires
        client.token is None,
    ensures
        spec_auth_action(client) == (AuthActionView::Fetch { request: spec_token_request(client) }),
        spec_token_request(client).url == client.environment.spec_base_url() + AUTHENTICATION_URL@,
        spec_token_request(client).authorization == (AuthorizationView::Basic {
            username: client.client_key,
            password: client.client_secret,
        }),
{
}

/// A token is fetched once and then reused. Take a client with an empty
/// cache and a reply of the token endpoint that holds a token. Completing the
/// authentication returns that token and caches it; from then on the client's
/// action is to use the cached token, with no fetch, and whatever reply a
/// later completion is given, the cache keeps the first token and returns it.
pub proof fn lemma_token_is_fetched_once(
    client: MpesaView,
    reply: HttpReplyView,
    later: HttpReplyView,
)
    requires
        client.token is None,
        spec_fetch_outcome(reply) is Ok,
    ensures
        spec_auth_outcome(client.token, reply) == spec_fetch_outcome(reply),
        spec_cache_after(client.token, reply) == Some(spec_fetch_outcome(reply)->Ok_0),
        spec_auth_action(MpesaView { token: spec_cache_after(client.token, reply), ..client })
            == (AuthActionView::UseCached { token: spec_fetch_outcome(reply)->Ok_0 }),
        spec_auth_outcome(spec_cache_after(client.token, reply), later) == spec_fetch_outcome(
            reply,
        ),
        spec_cache_after(spec_cache_after(client.token, reply), later) == spec_cache_after(
            client.token,
            reply,
        ),
{
}

/// The cache is written only by a complete, successfully decoded reply: a
/// fetch that fails in any way leaves an empty cache empty.
pub proof fn lemma_failed_fetch_leaves_cache_empty(reply: HttpReplyView)
    requires
        spec_fetch_outcome(reply) is Err,
    ensures
        spec_cache_after(None, reply) is None,
        spec_auth_outcome(None, reply) == spec_fetch_outcome(reply),
{
}

} // verus!
