//! Connector with hyper backend: the client it holds, and how a Telegram
//! request becomes an HTTP request and an HTTP response a Telegram one.

use vstd::prelude::*;

verus! {

/// `hyper::client::Client`, a pool of connections that sends requests
/// through the connector `C`; opaque here.
#[verifier::external_type_specification]
#[verifier::external_body]
#[verifier::reject_recursive_types(C)]
#[verifier::reject_recursive_types(B)]
pub struct ExClient<C, B>(::hyper::client::Client<C, B>);

/// `hyper::Body`, the body of an HTTP message; opaque here.
#[verifier::external_type_specification]
#[verifier::external_body]
pub struct ExBody(::hyper::Body);

/// `hyper::Uri`, a parsed URI; opaque here.
#[verifier::external_type_specification]
#[verifier::external_body]
pub struct ExUri(::hyper::Uri);

/// `hyper::http::uri::InvalidUri`, the error of a URI that does not parse;
/// opaque here.
#[verifier::external_type_specification]
#[verifier::external_body]
pub struct ExInvalidUri(::hyper::http::uri::InvalidUri);

/// Whether `url` parses as a URI (`hyper::Uri::from_str`); the answer
/// depends on the text alone.
pub uninterp spec fn uri_accepts(url: Seq<char>) -> bool;

/// Whether `u` is a URI that `hyper::Uri::from_str` gives for the text `url`.
pub uninterp spec fn parsed_from(u: ::hyper::Uri, url: Seq<char>) -> bool;

/// `hyper::Uri::from_str` (through `str::parse`): the URI that `url`
/// spells, or the error where it does not parse. The contract says whether
/// it parses and that the URI returned is the one parsed from `url`; the
/// URI's parts are opaque here.
#[verifier::external_body]
pub fn parse_uri(url: &str) -> (r: Result<::hyper::Uri, ::hyper::http::uri::InvalidUri>)
    ensures
        r is Ok <==> uri_accepts(url@),
        r matches Ok(u) ==> parsed_from(u, url@),
{
    url.parse()
}

/// The media type of a JSON request body.
pub const JSON_CONTENT_TYPE: &'static str = "application/json";

/// This connector uses `hyper` backend.
#[verifier::reject_recursive_types(C)]
pub struct HyperConnector<C> {
    inner: ::hyper::client::Client<C>,
}

impl<C> HyperConnector<C> {
    /// The client requests go through.
    pub closed spec fn client_view(&self) -> ::hyper::client::Client<C> {
        self.inner
    }

    /// A connector that sends requests through `client`.
    pub fn new(client: ::hyper::client::Client<C>) -> (r: Self)
        ensures
            r.client_view() == client,
    {
        HyperConnector { inner: client }
    }

    /// The client requests go through.
    pub fn client(&self) -> (c: &::hyper::client::Client<C>)
        ensures
            *c == self.client_view(),
    {
        &self.inner
    }

    /// How the connector shows itself in debug output.
    pub fn describe(&self) -> (s: &'static str)
        ensures
            s@ == "hyper connector"@,
    {
        "hyper connector"
    }
}

/// The HTTP method of a Telegram request.
#[derive(Debug, Clone, Copy, PartialEq, Eq, Structural)]
pub enum HttpMethod {
    Get,
    Post,
}

/// The body of a Telegram request, as far as the connector tells bodies apart.
#[derive(Debug, PartialEq, Eq)]
pub enum RequestBody {
    Empty,
    Json(String),
    /// A body the connector does not send (multipart uploads).
    Unsupported,
}

/// The HTTP request to make: the method, and where there is a body, its
/// content type and text.
#[derive(Debug, PartialEq, Eq)]
pub struct HttpPlan {
    pub method: HttpMethod,
    pub body: Option<(&'static str, String)>,
}

/// The HTTP request for a Telegram request: the same method; an empty body
/// stays empty, a JSON body goes out as `application/json`. The connector
/// does not send other bodies: its caller stops with a panic on them.
pub fn plan_request(method: HttpMethod, body: RequestBody) -> (plan: HttpPlan)
    requires
        !(body is Unsupported),
    ensures
        plan.method == method,
        match body {
            RequestBody::Json(text) => plan.body matches Some((ty, t)) && ty@ == JSON_CONTENT_TYPE@ && t == text,
            _ => plan.body is None,
        },
{
    match body {
        RequestBody::Json(text) => HttpPlan { method, body: Some((JSON_CONTENT_TYPE, text)) },
        _ => HttpPlan { method, body: None },
    }
}

/// An HTTP request ready to send: where it goes, and what it carries.
pub struct HttpCall {
    pub uri: ::hyper::Uri,
    pub plan: HttpPlan,
}

/// Prepare the HTTP request for a Telegram request sent to `url`. It fails
/// before anything is sent where `url` does not parse as a URI; where it
/// parses but the body is one the connector does not send, there is no
/// request (`Ok(None)`, and the caller stops with a panic); else the
/// request goes to the URI parsed from `url`, with the plan of
/// `plan_request`.
pub fn prepare_request(url: &str, method: HttpMethod, body: RequestBody) -> (r: Result<
    Option<HttpCall>,
    ::hyper::http::uri::InvalidUri,
>)
    ensures
        r is Ok <==> uri_accepts(url@),
        r matches Ok(None) ==> body is Unsupported,
        r matches Ok(Some(call)) ==> {
            &&& parsed_from(call.uri, url@)
            &&& !(body is Unsupported)
            &&& call.plan.method == method
            &&& match body {
                RequestBody::Json(text) => call.plan.body matches Some((ty, t)) && ty@ == JSON_CONTENT_TYPE@ && t == text,
                _ => call.plan.body is None,
            }
        },
        uri_accepts(url@) && !(body is Unsupported) ==> r is Ok && r->Ok_0 is Some,
{
    let uri = match parse_uri(url) {
        Ok(uri) => uri,
        Err(e) => {
            return Err(e);
        },
    };
    match body {
        RequestBody::Unsupported => Ok(None),
        _ => {
            let plan = plan_request(method, body);
            Ok(Some(HttpCall { uri, plan }))
        },
    }
}

/// The body of a Telegram response from the reading of the HTTP response
/// body: the bytes read, or no bytes where reading failed.
pub fn response_body<E>(read: Result<Vec<u8>, E>) -> (body: Vec<u8>)
    ensures
        match read {
            Ok(bytes) => body@ == bytes@,
            Err(_) => body@.len() == 0,
        },
{
    match read {
        Ok(bytes) => bytes,
        Err(_) => Vec::new(),
    }
}

} // verus!
