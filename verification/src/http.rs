//! HTTP exchanges as plain values: the request the host is asked to send and
//! what it reports back.

use vstd::prelude::*;

verus! {

/// The request methods the provider's endpoints take.
#[derive(Debug, Clone, Copy, PartialEq, Eq, Structural)]
pub enum HttpMethod {
    Get,
    Post,
}

/// A request for the host to send.
#[derive(Debug, Clone, PartialEq, Eq)]
pub struct HttpRequest {
    pub method: HttpMethod,
    pub url: String,
    /// Header names with their values.
    pub headers: Vec<(String, String)>,
    /// Fields of a form-encoded body; empty where the request has no body.
    pub form: Vec<(String, String)>,
}

/// Mathematical model of an [`HttpRequest`].
pub struct HttpRequestView {
    pub method: HttpMethod,
    pub url: Seq<char>,
    pub headers: Seq<(Seq<char>, Seq<char>)>,
    pub form: Seq<(Seq<char>, Seq<char>)>,
}

/// Model of a list of name/value pairs.
pub open spec fn pairs_view(pairs: Seq<(String, String)>) -> Seq<(Seq<char>, Seq<char>)> {
    pairs.map_values(|pair: (String, String)| (pair.0@, pair.1@))
}

impl View for HttpRequest {
    type V = HttpRequestView;

    open spec fn view(&self) -> HttpRequestView {
        HttpRequestView {
            method: self.method,
            url: self.url@,
            headers: pairs_view(self.headers@),
            form: pairs_view(self.form@),
        }
    }
}

/// What the host reports after sending a request.
#[derive(Debug, Clone, PartialEq, Eq)]
pub enum HttpOutcome {
    /// The provider answered. `body` is the response text, empty where it
    /// could not be read.
    Reply { status: u16, body: String },
    /// No answer was received; carries the transport's reason.
    Failed(String),
}

/// Mathematical model of an [`HttpOutcome`].
pub enum HttpOutcomeView {
    Reply { status: u16, body: Seq<char> },
    Failed(Seq<char>),
}

impl View for HttpOutcome {
    type V = HttpOutcomeView;

    open spec fn view(&self) -> HttpOutcomeView {
        match self {
            HttpOutcome::Reply { status, body } => HttpOutcomeView::Reply {
                status: *status,
                body: body@,
            },
            HttpOutcome::Failed(reason) => HttpOutcomeView::Failed(reason@),
        }
    }
}

/// A status in the 2xx class.
pub open spec fn is_success(status: u16) -> bool {
    200 <= status < 300
}

/// Whether `status` reports success.
pub fn status_is_success(status: u16) -> (success: bool)
    ensures
        success == is_success(status),
{
    200 <= status && status < 300
}

/// A name/value pair of owned strings.
pub fn pair(name: &str, value: &str) -> (made: (String, String))
    ensures
        made.0@ == name@,
        made.1@ == value@,
{
    (String::from_str(name), String::from_str(value))
}

impl HttpRequest {
    /// A form-encoded POST to `url`.
    pub fn post_form(url: &str, form: Vec<(String, String)>) -> (request: HttpRequest)
        ensures
            request@ == (HttpRequestView {
                method: HttpMethod::Post,
                url: url@,
                headers: Seq::empty(),
                form: pairs_view(form@),
            }),
    {
        let request = HttpRequest {
            method: HttpMethod::Post,
            url: String::from_str(url),
            headers: Vec::new(),
            form,
        };
        assert(pairs_view(request.headers@) =~= Seq::empty());
        request
    }

    /// A GET of `url` with the given headers and no body.
    pub fn get(url: &str, headers: Vec<(String, String)>) -> (request: HttpRequest)
        ensures
            request@ == (HttpRequestView {
                method: HttpMethod::Get,
                url: url@,
                headers: pairs_view(headers@),
                form: Seq::empty(),
            }),
    {
        let request = HttpRequest {
            method: HttpMethod::Get,
            url: String::from_str(url),
            headers,
            form: Vec::new(),
        };
        assert(pairs_view(request.form@) =~= Seq::empty());
        request
    }
}

} // verus!
