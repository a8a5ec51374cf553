//! Plain HTTP request and response values exchanged with a transport.
//!
//! The transport itself (the async `Transport` trait and its reqwest-backed
//! implementation) lives outside the verified library; the library only
//! builds the requests it sends and judges the replies it gets back.

use vstd::prelude::*;

use crate::text::same_text;

verus! {

broadcast use vstd::string::group_string_axioms;

/// An HTTP request as the Dropworks client hands it to a transport.
#[derive(Debug, Clone, PartialEq, Eq)]
pub struct HttpRequest {
    pub method: &'static str,
    pub url: String,
    pub body: Option<String>,
    pub headers: Vec<(String, String)>,
}

/// The headers of a request, each name and value taken by its characters.
pub open spec fn header_views(headers: Seq<(String, String)>) -> Seq<(Seq<char>, Seq<char>)> {
    headers.map_values(|h: (String, String)| (h.0@, h.1@))
}

/// The header that every JSON `POST` of the Dropworks contract carries.
pub open spec fn json_content_type() -> (Seq<char>, Seq<char>) {
    ("content-type"@, "application/json"@)
}

/// The body of a request, taken by its characters.
pub open spec fn body_view(body: Option<String>) -> Option<Seq<char>> {
    match body {
        Some(b) => Some(b@),
        None => None,
    }
}

/// A request taken by its characters: method, URL, body and headers.
pub struct RequestView {
    pub method: Seq<char>,
    pub url: Seq<char>,
    pub body: Option<Seq<char>>,
    pub headers: Seq<(Seq<char>, Seq<char>)>,
}

impl View for HttpRequest {
    type V = RequestView;

    open spec fn view(&self) -> RequestView {
        RequestView {
            method: self.method@,
            url: self.url@,
            body: body_view(self.body),
            headers: header_views(self.headers@),
        }
    }
}

/// The JSON `POST` of `body` to `url`, as the Dropworks contract sends it.
pub open spec fn json_post(url: Seq<char>, body: Seq<char>) -> RequestView {
    RequestView { method: "POST"@, url, body: Some(body), headers: seq![json_content_type()] }
}

impl HttpRequest {
    /// JSON `POST` request, matching the Dropworks REST contract.
    pub fn post(url: String, body: String) -> (request: Self)
        ensures
            request@ == json_post(url@, body@),
    {
        let mut headers: Vec<(String, String)> = Vec::new();
        headers.push(("content-type".to_string(), "application/json".to_string()));
        let request = HttpRequest { method: "POST", url, body: Some(body), headers };
        assert(header_views(request.headers@) =~= seq![json_content_type()]);
        request
    }
}

/// An HTTP response: its status code and its body text.
#[derive(Debug, Clone, PartialEq, Eq)]
pub struct HttpResponse {
    pub status: u16,
    pub body: String,
}

/// A response taken by its characters.
pub struct ResponseView {
    pub status: u16,
    pub body: Seq<char>,
}

impl View for HttpResponse {
    type V = ResponseView;

    open spec fn view(&self) -> ResponseView {
        ResponseView { status: self.status, body: self.body@ }
    }
}

/// What a transport hands back, taken by its characters: the response, or
/// the message of the transport error.
pub open spec fn reply_view(reply: Result<HttpResponse, TransportError>) -> Result<
    ResponseView,
    Seq<char>,
> {
    match reply {
        Ok(response) => Ok(response@),
        Err(error) => Err(error.0@),
    }
}

/// Whether an HTTP status code lies in the success range `200..300`.
pub open spec fn is_success_status(status: u16) -> bool {
    200 <= status < 300
}

/// Whether `status` lies in the success range `200..300`.
pub fn is_success(status: u16) -> (ok: bool)
    ensures
        ok == is_success_status(status),
{
    200 <= status && status < 300
}

/// A failure reported by a transport, carrying its message.
#[derive(Debug, Clone)]
pub struct TransportError(pub String);

/// The text of a transport error as it is shown to users.
pub open spec fn transport_error_text(message: Seq<char>) -> Seq<char> {
    "dropworks transport error: "@ + message
}

impl TransportError {
    /// The user-facing text of this error.
    pub fn to_string(&self) -> (text: String)
        ensures
            text@ == transport_error_text(self.0@),
    {
        let mut text = "dropworks transport error: ".to_string();
        text.append(self.0.as_str());
        text
    }
}

/// The HTTP methods a transport knows how to send.
#[derive(Debug, Clone, Copy, PartialEq, Eq)]
pub enum HttpMethod {
    Get,
    Post,
}

/// The text of the error for a method no transport sends.
pub open spec fn unsupported_method_text(method: Seq<char>) -> Seq<char> {
    "unsupported HTTP method '"@ + method + "'"@
}

/// The method a request names, or the transport error for one that is not
/// supported.
pub fn request_method(method: &str) -> (chosen: Result<HttpMethod, TransportError>)
    ensures
        match chosen {
            Ok(HttpMethod::Get) => method@ == "GET"@,
            Ok(HttpMethod::Post) => method@ == "POST"@,
            Err(error) => method@ != "GET"@ && method@ != "POST"@ && error.0@ == unsupported_method_text(
                method@,
            ),
        },
{
    if same_text(method, "GET") {
        Ok(HttpMethod::Get)
    } else if same_text(method, "POST") {
        Ok(HttpMethod::Post)
    } else {
        let mut text = "unsupported HTTP method '".to_string();
        text.append(method);
        text.append("'");
        Err(TransportError(text))
    }
}

} // verus!
