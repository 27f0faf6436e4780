//! The client handle: a credential and an operating mode.

use crate::api::{EndpointView, SquareAPI, Verb};
use crate::errors::SquareError;
use crate::header::{header_value_from_str, is_header_char, is_header_text, lemma_header_text};
use vstd::prelude::*;
use vstd::string::StringExecFns;

verus! {

/// The host family that a client talks to.
#[derive(Copy, Clone, Debug, PartialEq, Eq)]
pub enum ClientMode {
    Production,
    Sandboxed,
}

impl Default for ClientMode {
    /// A client starts out sandboxed.
    fn default() -> (mode: Self)
        ensures
            mode == ClientMode::Sandboxed,
    {
        ClientMode::Sandboxed
    }
}

/// The mathematical content of a [`SquareClient`].
pub struct ClientView {
    pub access_token: Seq<char>,
    pub mode: ClientMode,
}

impl ClientMode {
    /// The base URL of the hosts of this mode.
    pub open spec fn base(self) -> Seq<char> {
        match self {
            ClientMode::Production => "https://connect.squareup.com/v2/"@,
            ClientMode::Sandboxed => "https://connect.squareupsandbox.com/v2/"@,
        }
    }
}

impl ClientView {
    /// The value of the authorization header: the bearer scheme, then the
    /// credential.
    pub open spec fn authorization(self) -> Seq<char> {
        "Bearer "@ + self.access_token
    }

    /// Whether the credential can travel in a header: whether it is free of
    /// control characters other than the tab.
    pub open spec fn authorized(self) -> bool {
        is_header_text(self.access_token)
    }

    /// The same credential, bound to the production hosts.
    pub open spec fn production(self) -> ClientView {
        ClientView { mode: ClientMode::Production, ..self }
    }

    /// The full URL of `end_point` on the hosts of the client's mode.
    pub open spec fn url(self, end_point: EndpointView) -> Seq<char> {
        self.mode.base() + end_point.path()
    }

    /// What a dispatch with these arguments comes to: the request that goes
    /// out, or the stage that refuses it.
    pub open spec fn plan<T>(
        self,
        verb: Verb,
        end_point: EndpointView,
        body: Option<T>,
        parameters: Option<Seq<(Seq<char>, Seq<char>)>>,
    ) -> Result<RequestView<T>, SquareError> {
        if self.authorized() {
            Ok(
                RequestView {
                    verb,
                    url: self.url(end_point),
                    authorization: self.authorization(),
                    parameters,
                    body,
                },
            )
        } else {
            Err(SquareError::InvalidHeader)
        }
    }
}

/// One HTTP request, resolved down to what goes over the wire.
#[derive(Debug)]
pub struct PreparedRequest<T> {
    pub verb: Verb,
    /// The full URL, without the query.
    pub url: String,
    /// The value of the `Authorization` header.
    pub authorization: String,
    /// The query's key/value pairs, in the order in which they are sent.
    pub parameters: Option<Vec<(String, String)>>,
    /// The value that is sent as the JSON body.
    pub body: Option<T>,
}

/// The mathematical content of a [`PreparedRequest`].
pub struct RequestView<T> {
    pub verb: Verb,
    pub url: Seq<char>,
    pub authorization: Seq<char>,
    pub parameters: Option<Seq<(Seq<char>, Seq<char>)>>,
    pub body: Option<T>,
}

impl<T> View for PreparedRequest<T> {
    type V = RequestView<T>;

    open spec fn view(&self) -> RequestView<T> {
        RequestView {
            verb: self.verb,
            url: self.url@,
            authorization: self.authorization@,
            parameters: self.parameters.deep_view(),
            body: self.body,
        }
    }
}

/// The content of what a dispatch returned.
pub open spec fn outcome<T>(res: Result<PreparedRequest<T>, SquareError>) -> Result<
    RequestView<T>,
    SquareError,
> {
    match res {
        Ok(request) => Ok(request@),
        Err(error) => Err(error),
    }
}

/// Switching to production changes the base of the URL of every dispatch and
/// nothing else: the credential, the authorization header, the verb, the
/// path below the base, the query and the body are what they were, and a
/// dispatch that was refused is refused still.
pub proof fn lemma_production_changes_only_the_base<T>(
    client: ClientView,
    verb: Verb,
    end_point: EndpointView,
    body: Option<T>,
    parameters: Option<Seq<(Seq<char>, Seq<char>)>>,
)
    ensures
        client.production().access_token == client.access_token,
        client.production().authorization() == client.authorization(),
        client.production().url(end_point) == ClientMode::Production.base() + end_point.path(),
        client.url(end_point) == client.mode.base() + end_point.path(),
        client.production().plan(verb, end_point, body, parameters) == match client.plan(
            verb,
            end_point,
            body,
            parameters,
        ) {
            Ok(request) => Ok(
                RequestView { url: ClientMode::Production.base() + end_point.path(), ..request },
            ),
            Err(error) => Err(error),
        },
{
}

/// The caller's authenticated entry point.
#[derive(Clone)]
pub struct SquareClient {
    pub(crate) access_token: String,
    pub(crate) client_mode: ClientMode,
}

impl View for SquareClient {
    type V = ClientView;

    open(crate) spec fn view(&self) -> ClientView {
        ClientView { access_token: self.access_token@, mode: self.client_mode }
    }
}

impl SquareClient {
    /// A sandboxed client that holds `access_token`.
    pub fn new(access_token: &str) -> (client: Self)
        ensures
            client@ == (ClientView { access_token: access_token@, mode: ClientMode::Sandboxed }),
    {
        Self { access_token: access_token.to_string(), client_mode: Default::default() }
    }

    /// The same credential, bound to the production hosts.
    pub fn production(self) -> (client: Self)
        ensures
            client@ == self@.production(),
    {
        Self { access_token: self.access_token, client_mode: ClientMode::Production }
    }

    /// Resolves a request for `endpoint` into what goes over the wire.
    ///
    /// The request is refused when the credential cannot be encoded into a
    /// header value; nothing else can fail before the request is sent.
    pub fn request<T>(
        &self,
        verb: Verb,
        endpoint: SquareAPI,
        json: Option<T>,
        parameters: Option<Vec<(String, String)>>,
    ) -> (res: Result<PreparedRequest<T>, SquareError>)
        ensures
            outcome(res) == self@.plan(verb, endpoint@, json, parameters.deep_view()),
    {
        let authorization = String::from_str("Bearer ").concat(self.access_token.as_str());
        proof {
            reveal_strlit("Bearer ");
            lemma_header_text(authorization@);
            assert(is_header_text(authorization@) <==> is_header_text(self.access_token@)) by {
                if is_header_text(authorization@) {
                    assert forall|i: int| 0 <= i < self.access_token@.len() implies
                        is_header_char(#[trigger] self.access_token@[i]) by {
                        assert(self.access_token@[i] == authorization@[i + 7]);
                    }
                }
            }
        }
        match header_value_from_str(authorization.as_str()) {
            Ok(_) => {
                let url = self.endpoint(endpoint);
                Ok(PreparedRequest { verb, url, authorization, parameters, body: json })
            },
            Err(_) => Err(SquareError::InvalidHeader),
        }
    }
}

} // verus!
