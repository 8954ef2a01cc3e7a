//! Typed client for the RTE open-data API: token bookkeeping, typed query
//! construction, decoding of the JSON response families, and flattening of
//! the decoded trees into tabular rows.
//!
//! Network transport is injected through the [`ApiClient`] trait; the crate
//! itself never performs I/O.

use vstd::prelude::*;

pub mod consumption;
pub mod error;
pub mod generation;
pub mod json;
pub mod time;

verus! {

/// What the injected HTTP capability hands back on a completed round trip:
/// the numeric status code and the raw body text.
#[derive(Debug)]
pub struct HttpResponse {
    pub status: u16,
    pub body: String,
}

/// The injected HTTP capability: one authenticated GET against a fixed
/// path with a built query list.  Implementations live outside the verified
/// core (a real transport, or a stub); nothing is assumed of what they
/// return, and the callers state what holds of every outcome.
pub trait ApiClient {
    /// Performs one GET and returns the status and body, or a transport
    /// failure description obtained before any status was available.
    fn http_get(&self, path: &str, query: &[(String, String)]) -> Result<HttpResponse, String>;
}

/// The abstract state of a client: credential material, the base URL, and
/// the current bearer token if one is held.
pub struct RteApiView {
    pub client_id: Seq<char>,
    pub client_secret: Seq<char>,
    pub base_url: Seq<char>,
    pub token: Option<Seq<char>>,
}

/// Credential owner and token holder.  The token is stored only by an
/// explicit [`RteApi::set_token`] after a successful credential exchange;
/// there is no expiry tracking and no reactive re-authentication.
#[derive(Debug)]
pub struct RteApi {
    client_id: String,
    client_secret: String,
    base_url: String,
    token: Option<String>,
}

impl View for RteApi {
    type V = RteApiView;

    closed spec fn view(&self) -> RteApiView {
        RteApiView {
            client_id: self.client_id@,
            client_secret: self.client_secret@,
            base_url: self.base_url@,
            token: match self.token {
                Some(t) => Some(t@),
                None => None,
            },
        }
    }
}

impl RteApi {
    /// A fresh client for the production host, holding the credentials and
    /// no token yet.
    pub fn new(client_id: String, client_secret: String) -> (r: Self)
        ensures
            r@.client_id == client_id@,
            r@.client_secret == client_secret@,
            r@.base_url == "https://digital.iservices.rte-france.com/"@,
            r@.token is None,
    {
        RteApi {
            client_id,
            client_secret,
            base_url: "https://digital.iservices.rte-france.com/".to_owned(),
            token: None,
        }
    }

    /// The same client aimed at another base URL.
    pub fn with_base_url(self, base_url: String) -> (r: Self)
        ensures
            r@.client_id == self@.client_id,
            r@.client_secret == self@.client_secret,
            r@.base_url == base_url@,
            r@.token == self@.token,
    {
        RteApi { base_url, ..self }
    }

    pub fn client_id(&self) -> (r: &String)
        ensures
            r@ == self@.client_id,
    {
        &self.client_id
    }

    pub fn client_secret(&self) -> (r: &String)
        ensures
            r@ == self@.client_secret,
    {
        &self.client_secret
    }

    pub fn base_url(&self) -> (r: &String)
        ensures
            r@ == self@.base_url,
    {
        &self.base_url
    }

    /// The token endpoint used by the client-credentials exchange.
    pub fn token_url(&self) -> (r: String)
        ensures
            r@ == self@.base_url + "/oauth/token"@,
    {
        self.base_url.clone().concat("/oauth/token")
    }

    /// Stores the bearer token a successful exchange returned; everything
    /// else is left untouched.
    pub fn set_token(&mut self, token: String)
        ensures
            final(self)@.token == Some(token@),
            final(self)@.client_id == old(self)@.client_id,
            final(self)@.client_secret == old(self)@.client_secret,
            final(self)@.base_url == old(self)@.base_url,
    {
        self.token = Some(token);
    }

    /// The held token, or the indication that no authentication has
    /// happened yet.
    pub fn current_token(&self) -> (r: Option<&String>)
        ensures
            match r {
                Some(t) => self@.token == Some(t@),
                None => self@.token is None,
            },
    {
        self.token.as_ref()
    }

    /// The held token; callers must have authenticated first.
    pub fn get_token(&self) -> (r: &String)
        requires
            self@.token is Some,
        ensures
            self@.token == Some(r@),
    {
        self.token.as_ref().unwrap()
    }
}

} // verus!
