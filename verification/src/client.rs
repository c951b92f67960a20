//! The client: credentials, deployment target and the cached bearer token.

use vstd::prelude::*;
use crate::environment::Environment;
use crate::services::dynamic_qr::{spec_empty_builder, DynamicQR, DynamicQRBuilder};

verus! {

/// A client of the remote API.
///
/// It is made once and lives for as long as the API is used. The cached
/// bearer token is its only state that changes, and it changes only through
/// [`Mpesa::complete_auth`] and [`Mpesa::refresh`]. A program that shares
/// one client between concurrent operations keeps it behind a lock and holds
/// the lock from [`Mpesa::auth`] to [`Mpesa::complete_auth`].
#[derive(Debug, Clone)]
pub struct Mpesa {
    pub(crate) client_key: String,
    pub(crate) client_secret: String,
    pub(crate) environment: Environment,
    pub(crate) token: Option<String>,
}

/// The contents of a [`Mpesa`] client.
pub struct MpesaView {
    /// The client identifier.
    pub client_key: Seq<char>,
    /// The client secret.
    pub client_secret: Seq<char>,
    /// The deployment that the client talks to.
    pub environment: Environment,
    /// The cached bearer token; `None` until one was fetched.
    pub token: Option<Seq<char>>,
}

impl View for Mpesa {
    type V = MpesaView;

    open(crate) spec fn view(&self) -> MpesaView {
        MpesaView {
            client_key: self.client_key@,
            client_secret: self.client_secret@,
            environment: self.environment,
            token: match self.token {
                Some(token) => Some(token@),
                None => None,
            },
        }
    }
}

impl Mpesa {
    /// A client for `environment` with the given credentials and an empty
    /// token cache. Nothing is sent.
    pub fn new(client_key: String, client_secret: String, environment: Environment) -> (client:
        Mpesa)
        ensures
            client@ == (MpesaView {
                client_key: client_key@,
                client_secret: client_secret@,
                environment,
                token: None,
            }),
    {
        Mpesa { client_key, client_secret, environment, token: None }
    }

    /// The client identifier.
    pub fn client_key(&self) -> (key: &str)
        ensures
            key@ == self@.client_key,
    {
        self.client_key.as_str()
    }

    /// The client secret.
    pub fn client_secret(&self) -> (secret: &str)
        ensures
            secret@ == self@.client_secret,
    {
        self.client_secret.as_str()
    }

    /// The deployment that this client talks to.
    pub fn environment(&self) -> (environment: Environment)
        ensures
            environment == self@.environment,
    {
        self.environment
    }

    /// The cached bearer token, if one was fetched.
    pub fn cached_token(&self) -> (token: Option<&str>)
        ensures
            match token {
                Some(token) => self@.token == Some(token@),
                None => self@.token is None,
            },
    {
        match &self.token {
            Some(token) => Some(token.as_str()),
            None => None,
        }
    }

    /// A builder for a QR-code request through this client, with no field
    /// set.
    pub fn dynamic_qr(&self) -> (builder: DynamicQRBuilder<'_>)
        ensures
            builder@ == spec_empty_builder(self@),
    {
        DynamicQR::builder(self)
    }
}

} // verus!
