//! The transport core: client configuration and the decisions of the
//! authenticated request dispatch.
use vstd::prelude::*;
use crate::json::parse_json;

verus! {

/// An error type that the dispatch can build from a message.
///
/// Each API area has its own error type; the transport reports every failure
/// through this capability, without knowing the concrete type.
pub trait FromMessage: Sized {
    /// The message that an error carries.
    spec fn message(&self) -> Seq<char>;

    /// Whether this is the error that [`from_message`](Self::from_message)
    /// builds for a failure described by `message`.
    spec fn reports(&self, message: Seq<char>) -> bool;

    /// Builds the error for a failure described by `message`.
    fn from_message(message: String) -> (e: Self)
        ensures
            e.reports(message@),
            e.message() == message@,
    ;
}

/// How an area error reads: the request failed, or the API reported an error.
pub open spec fn error_text(request_failed: bool, message: Seq<char>) -> Seq<char> {
    if request_failed {
        "API request failed: "@ + message
    } else {
        "API error: "@ + message
    }
}

/// Builds `error_text(request_failed, message)`.
pub fn describe_error(request_failed: bool, message: &str) -> (r: String)
    ensures
        r@ == error_text(request_failed, message@),
{
    if request_failed {
        String::from_str("API request failed: ").concat(message)
    } else {
        String::from_str("API error: ").concat(message)
    }
}

#[verifier::external_type_specification]
#[verifier::external_body]
pub struct ExHttpClient(reqwest::Client);

#[verifier::external_type_specification]
#[verifier::external_body]
pub struct ExHttpError(reqwest::Error);

/// Relies on reqwest's `Client::clone`, which hands out another handle to the
/// same engine; nothing is stated of it.
pub assume_specification[ <reqwest::Client as Clone>::clone ](c: &reqwest::Client) -> reqwest::Client;

/// Relies on reqwest's `ClientBuilder::user_agent` and `ClientBuilder::build`:
/// a client that sends `user_agent` with every request. Whether it can be
/// built depends on the machine (TLS backend, system proxies), so nothing is
/// promised of the outcome.
#[verifier::external_body]
fn default_http_client(user_agent: &str) -> (r: Result<reqwest::Client, reqwest::Error>) {
    reqwest::Client::builder().user_agent(user_agent).build()
}

/// The message when neither the builder nor the environment gives a token.
pub const MISSING_ACCESS_TOKEN: &'static str =
    "Access token must be provided either via builder or FITBIT_ACCESS_TOKEN environment variable";

/// The environment variable that holds the fallback access token.
pub const ACCESS_TOKEN_VARIABLE: &'static str = "FITBIT_ACCESS_TOKEN";

/// The token a client is built with: the explicit one, else the environment's.
pub open spec fn resolved_token(explicit: Option<Seq<char>>, environment: Option<Seq<char>>) -> Option<
    Seq<char>,
> {
    match explicit {
        Some(t) => Some(t),
        None => environment,
    }
}

/// Whether an HTTP status code is in the success range.
pub open spec fn is_success_status(status: u16) -> bool {
    200 <= status < 300
}

/// The message of an error whose response body could not be read.
pub open spec fn body_read_failure_text(description: Seq<char>) -> Seq<char> {
    "Failed to get response body: "@ + description
}

/// The message of an error whose response body is not the expected JSON.
pub open spec fn json_failure_text(parser_message: Seq<char>, body: Seq<char>) -> Seq<char> {
    "JSON parsing error: "@ + parser_message + ". Response body: "@ + body
}

/// An explicit token decides the token of the client, whatever the
/// environment holds: the environment is consulted only without one.
pub proof fn lemma_explicit_token_wins(explicit: Seq<char>, environment: Option<Seq<char>>)
    ensures
        resolved_token(Some(explicit), environment) == Some(explicit),
        resolved_token(Some(explicit), environment) == resolved_token(Some(explicit), None),
{
}

/// The message for a body that could not be decoded starts with the
/// parse-failure indicator and ends with the raw body.
pub proof fn lemma_json_failure_mentions_body(parser_message: Seq<char>, body: Seq<char>)
    ensures
        ({
            let t = json_failure_text(parser_message, body);
            &&& t.subrange(0, "JSON parsing error: "@.len() as int) == "JSON parsing error: "@
            &&& t.subrange(t.len() - body.len(), t.len() as int) == body
        }),
{
    let t = json_failure_text(parser_message, body);
    let head = "JSON parsing error: "@ + parser_message + ". Response body: "@;
    assert(t == head + body);
    assert(t.subrange(t.len() - body.len(), t.len() as int) =~= body);
    assert(t.subrange(0, "JSON parsing error: "@.len() as int) =~= "JSON parsing error: "@);
}

/// A client for the API: an HTTP engine, a bearer token and a base URL, fixed
/// at construction.
#[derive(Debug, Clone)]
pub struct FitbitClient {
    client: reqwest::Client,
    access_token: String,
    api_base_url: String,
}

/// Settings for a [`FitbitClient`], resolved by [`FitbitClientBuilder::build`].
pub struct FitbitClientBuilder {
    access_token: Option<String>,
    api_base_url: String,
    client: Option<reqwest::Client>,
}

/// What came of sending one request, as the HTTP engine reported it.
pub enum Exchange {
    /// No response was obtained (connection, TLS, timeout, ...); the failure's description.
    SendFailed(String),
    /// A response came but its body could not be read; the failure's description.
    BodyUnreadable(String),
    /// A response came with this status code and body text.
    Received { status: u16, body: String },
}

impl FitbitClient {
    /// The base URL of the API.
    pub const DEFAULT_API_BASE_URL: &'static str = "https://api.fitbit.com/1";

    /// The user agent of the default HTTP client.
    pub const DEFAULT_USER_AGENT: &'static str = "fitbit-sdk-0.1.0";

    /// The bearer token of every request.
    pub closed spec fn token_view(&self) -> Seq<char> {
        self.access_token@
    }

    /// The prefix of every request URL.
    pub closed spec fn base_url_view(&self) -> Seq<char> {
        self.api_base_url@
    }

    /// The HTTP engine that sends the requests.
    pub closed spec fn engine(&self) -> reqwest::Client {
        self.client
    }

    /// The HTTP engine that sends the requests.
    pub fn get_client(&self) -> (r: &reqwest::Client)
        ensures
            *r == self.engine(),
    {
        &self.client
    }

    /// The bearer token.
    pub fn get_access_token(&self) -> (r: &str)
        ensures
            r@ == self.token_view(),
    {
        self.access_token.as_str()
    }

    /// The base URL.
    pub fn get_api_base_url(&self) -> (r: &str)
        ensures
            r@ == self.base_url_view(),
    {
        self.api_base_url.as_str()
    }

    /// A new builder.
    pub fn builder() -> (r: FitbitClientBuilder)
        ensures
            r.token_view() is None,
            r.base_url_view() == FitbitClient::DEFAULT_API_BASE_URL@,
            r.engine() is None,
    {
        FitbitClientBuilder::new()
    }

    /// A client with the default settings: the token comes from
    /// `environment_token`, the value of [`ACCESS_TOKEN_VARIABLE`] if it is set.
    pub fn new<E: FromMessage>(environment_token: Option<String>) -> (r: Result<Self, E>)
        ensures
            environment_token is None ==> (r matches Err(e) && e.reports(MISSING_ACCESS_TOKEN@)),
            environment_token is Some && r is Err ==> exists|x: reqwest::Error, s: String|
                vstd::string::to_string_from_display_ensures::<reqwest::Error>(&x, s)
                    && r->Err_0.reports(s@),
            r matches Ok(c) ==> {
                &&& Some(c.token_view()) == environment_token.deep_view()
                &&& c.base_url_view() == FitbitClient::DEFAULT_API_BASE_URL@
            },
    {
        Self::builder().build(environment_token)
    }

    /// The URL of a request: the base URL followed by `path`, verbatim.
    pub fn request_url(&self, path: &str) -> (r: String)
        ensures
            r@ == self.base_url_view() + path@,
    {
        self.api_base_url.clone().concat(path)
    }

    /// The value of the `Authorization` header of every request.
    pub fn authorization(&self) -> (r: String)
        ensures
            r@ == "Bearer "@ + self.token_view(),
    {
        String::from_str("Bearer ").concat(self.access_token.as_str())
    }
}

/// Whether `status` is a success (2xx) code.
pub fn is_success(status: u16) -> (r: bool)
    ensures
        r == is_success_status(status),
{
    200 <= status && status < 300
}

/// The body of a successful exchange, or the error it comes to.
///
/// A failure to send carries the engine's description; a failure to read the
/// body carries it after a distinguishing prefix; a response outside the
/// success range carries its body text, unparsed.
pub fn accept_response<E: FromMessage>(exchange: Exchange) -> (r: Result<String, E>)
    ensures
        match exchange {
            Exchange::SendFailed(d) => r matches Err(e) && e.reports(d@),
            Exchange::BodyUnreadable(d) => r matches Err(e) && e.reports(
                body_read_failure_text(d@),
            ),
            Exchange::Received { status, body } => if is_success_status(status) {
                r matches Ok(b) && b@ == body@
            } else {
                r matches Err(e) && e.reports(body@)
            },
        },
{
    match exchange {
        Exchange::SendFailed(d) => Err(E::from_message(d)),
        Exchange::BodyUnreadable(d) => Err(
            E::from_message(String::from_str("Failed to get response body: ").concat(d.as_str())),
        ),
        Exchange::Received { status, body } => {
            if is_success(status) {
                Ok(body)
            } else {
                Err(E::from_message(body))
            }
        },
    }
}

/// The message of an error for a body that is not the expected JSON: it
/// carries the parser's message and the raw body.
pub fn json_failure_message(parser_message: &str, body: &str) -> (r: String)
    ensures
        r@ == json_failure_text(parser_message@, body@),
{
    String::from_str("JSON parsing error: ").concat(parser_message).concat(
        ". Response body: ",
    ).concat(body)
}

/// The outcome of decoding a successful response body: the decoded value,
/// or, for the parser's message `parsed` failed with, the error that carries
/// it and the raw body.
pub fn settle_decoding<T, E: FromMessage>(parsed: Result<T, String>, body: &str) -> (r: Result<
    T,
    E,
>)
    ensures
        match parsed {
            Ok(v) => r == Ok::<T, E>(v),
            Err(p) => r matches Err(e) && e.reports(json_failure_text(p@, body@)),
        },
{
    match parsed {
        Ok(v) => Ok(v),
        Err(p) => Err(E::from_message(json_failure_message(p.as_str(), body))),
    }
}

/// Decodes a successful response body as JSON into a `T`; when it cannot be
/// decoded, the error carries the parser's message and the raw body.
pub fn decode_body<T: serde::de::DeserializeOwned, E: FromMessage>(body: String) -> (r: Result<
    T,
    E,
>)
    ensures
        r matches Err(e) ==> exists|p: Seq<char>| e.reports(json_failure_text(p, body@)),
{
    let parsed = match parse_json::<T>(body.as_str()) {
        Ok(v) => Ok(v),
        Err(e) => Err(e.to_string()),
    };
    settle_decoding::<T, E>(parsed, body.as_str())
}

/// The outcome of a request: the decoded payload of a successful response, or
/// the error that [`accept_response`] or [`decode_body`] reports.
pub fn settle_exchange<T: serde::de::DeserializeOwned, E: FromMessage>(exchange: Exchange) -> (r:
    Result<T, E>)
    ensures
        match exchange {
            Exchange::SendFailed(d) => r matches Err(e) && e.reports(d@),
            Exchange::BodyUnreadable(d) => r matches Err(e) && e.reports(
                body_read_failure_text(d@),
            ),
            Exchange::Received { status, body } => if is_success_status(status) {
                r matches Err(e) ==> exists|p: Seq<char>|
                    e.reports(json_failure_text(p, body@))
            } else {
                r matches Err(e) && e.reports(body@)
            },
        },
{
    match accept_response::<E>(exchange) {
        Ok(body) => decode_body::<T, E>(body),
        Err(e) => Err(e),
    }
}

/// A client from a resolved token and base URL and the outcome of getting
/// an HTTP engine: an engine gives the client, and the description of a
/// failure to make one gives the error that carries it.
pub fn assemble_client<E: FromMessage>(
    access_token: String,
    api_base_url: String,
    engine: Result<reqwest::Client, String>,
) -> (r: Result<FitbitClient, E>)
    ensures
        match engine {
            Ok(c) => r matches Ok(k) && k.engine() == c && k.token_view() == access_token@
                && k.base_url_view() == api_base_url@,
            Err(d) => r matches Err(e) && e.reports(d@),
        },
{
    match engine {
        Ok(client) => Ok(FitbitClient { client, access_token, api_base_url }),
        Err(d) => Err(E::from_message(d)),
    }
}

impl FitbitClientBuilder {
    /// The explicit token, if one was given.
    pub closed spec fn token_view(&self) -> Option<Seq<char>> {
        self.access_token.deep_view()
    }

    /// The base URL that requests will be made against.
    pub closed spec fn base_url_view(&self) -> Seq<char> {
        self.api_base_url@
    }

    /// The injected HTTP engine, if one was given.
    pub closed spec fn engine(&self) -> Option<reqwest::Client> {
        self.client
    }

    /// A builder with no token, the default base URL and no injected engine.
    pub fn new() -> (r: Self)
        ensures
            r.token_view() is None,
            r.base_url_view() == FitbitClient::DEFAULT_API_BASE_URL@,
            r.engine() is None,
    {
        FitbitClientBuilder {
            access_token: None,
            api_base_url: String::from_str(FitbitClient::DEFAULT_API_BASE_URL),
            client: None,
        }
    }

    /// Sets the access token, replacing any earlier one.
    pub fn with_access_token(self, access_token: &str) -> (r: Self)
        ensures
            r.token_view() == Some(access_token@),
            r.base_url_view() == self.base_url_view(),
            r.engine() == self.engine(),
    {
        FitbitClientBuilder { access_token: Some(String::from_str(access_token)), ..self }
    }

    /// Sets the base URL; it is not checked here.
    pub fn with_api_base_url(self, api_base_url: &str) -> (r: Self)
        ensures
            r.token_view() == self.token_view(),
            r.base_url_view() == api_base_url@,
            r.engine() == self.engine(),
    {
        FitbitClientBuilder { api_base_url: String::from_str(api_base_url), ..self }
    }

    /// Injects a configured HTTP engine.
    pub fn with_http_client(self, client: reqwest::Client) -> (r: Self)
        ensures
            r.token_view() == self.token_view(),
            r.base_url_view() == self.base_url_view(),
            r.engine() == Some(client),
    {
        FitbitClientBuilder { client: Some(client), ..self }
    }

    /// Whether [`build`](Self::build) needs the token from the environment:
    /// only when no explicit token was given.
    pub fn needs_environment_token(&self) -> (r: bool)
        ensures
            r == (self.token_view() is None),
    {
        self.access_token.is_none()
    }

    /// Resolves the settings into a client.
    ///
    /// `environment_token` is the value of [`ACCESS_TOKEN_VARIABLE`], if it is
    /// set; it is used only when no explicit token was given. Without either
    /// token the build fails with [`MISSING_ACCESS_TOKEN`]. Without an
    /// injected engine a default one is made, and a failure to make it is
    /// reported as an error.
    pub fn build<E: FromMessage>(self, environment_token: Option<String>) -> (r: Result<
        FitbitClient,
        E,
    >)
        ensures
            resolved_token(self.token_view(), environment_token.deep_view()) is None ==> (
            r matches Err(e) && e.reports(MISSING_ACCESS_TOKEN@)),
            resolved_token(self.token_view(), environment_token.deep_view()) is Some
                && self.engine() is Some ==> r is Ok,
            r matches Ok(c) ==> {
                &&& Some(c.token_view()) == resolved_token(
                    self.token_view(),
                    environment_token.deep_view(),
                )
                &&& c.base_url_view() == self.base_url_view()
                &&& self.engine() matches Some(engine) ==> c.engine() == engine
            },
            r is Err && resolved_token(self.token_view(), environment_token.deep_view()) is Some
                ==> self.engine() is None && exists|x: reqwest::Error, s: String|
                vstd::string::to_string_from_display_ensures::<reqwest::Error>(&x, s)
                    && r->Err_0.reports(s@),
    {
        let access_token = match self.access_token {
            Some(t) => t,
            None => match environment_token {
                Some(t) => t,
                None => {
                    return Err(E::from_message(String::from_str(MISSING_ACCESS_TOKEN)));
                },
            },
        };
        let engine = match self.client {
            Some(c) => Ok(c),
            None => match default_http_client(FitbitClient::DEFAULT_USER_AGENT) {
                Ok(c) => Ok(c),
                Err(e) => {
                    let s = e.to_string();
                    assert(vstd::string::to_string_from_display_ensures::<reqwest::Error>(&e, s));
                    Err(s)
                },
            },
        };
        assemble_client(access_token, self.api_base_url, engine)
    }
}

} // verus!
