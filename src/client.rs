//! The Steam API client: requests to send, and what their answers mean.

use vstd::prelude::*;
use crate::errors::{RequestFailure, SteamError};
use crate::json::{json_of_text, parse_json, Json};

verus! {

/// The client configuration: the developer's Steam API key, which may be empty.
pub struct SteamClient {
    /// The dev's Steam API key
    api_key: String,
}

impl View for SteamClient {
    type V = Seq<char>;

    /// The API key.
    closed spec fn view(&self) -> Seq<char> {
        self.api_key@
    }
}

/// The value of one query parameter.
#[derive(Debug, PartialEq, Eq)]
pub enum QueryValue {
    Text(String),
    Number(u64),
}

/// A query parameter's value, as the contracts see it.
pub enum QueryValueView {
    Text(Seq<char>),
    Number(u64),
}

impl View for QueryValue {
    type V = QueryValueView;

    open spec fn view(&self) -> QueryValueView {
        match self {
            QueryValue::Text(s) => QueryValueView::Text(s@),
            QueryValue::Number(n) => QueryValueView::Number(*n),
        }
    }
}

/// A GET request to one endpoint: its URL and its query parameters, in order.
#[derive(Debug)]
pub struct SteamRequest {
    pub endpoint: String,
    pub query: Vec<(String, QueryValue)>,
}

/// Query parameters as names and values.
pub open spec fn params_view(params: Seq<(String, QueryValue)>) -> Seq<(Seq<char>, QueryValueView)> {
    params.map_values(|p: (String, QueryValue)| (p.0@, p.1@))
}

impl SteamRequest {
    /// The query parameters as names and values.
    pub open spec fn query_view(&self) -> Seq<(Seq<char>, QueryValueView)> {
        params_view(self.query@)
    }
}

/// What came of sending a request.
#[derive(Debug)]
pub enum HttpOutcome {
    /// Steam answered with this status code and body.
    Received { status: u16, body: String },
    /// No answer arrived; the text is what the transport reported.
    Unreachable(String),
}

/// The meaning of an outcome: a 200 answer carries a JSON document; 401 means
/// that the key is invalid or the data private; anything else is a failure.
pub open spec fn classification(outcome: HttpOutcome) -> Result<Json, SteamError> {
    match outcome {
        HttpOutcome::Received { status, body } => {
            if status == 200 {
                match json_of_text(body@) {
                    Some(j) => Ok(j),
                    None => Err(SteamError::FailedRequest(RequestFailure::MalformedBody)),
                }
            } else if status == 401 {
                Err(SteamError::Unauthorized)
            } else {
                Err(SteamError::FailedRequest(RequestFailure::Status(status)))
            }
        },
        HttpOutcome::Unreachable(detail) => Err(
            SteamError::FailedRequest(RequestFailure::Transport(detail)),
        ),
    }
}

/// The outcome is an answer with this status.
pub open spec fn has_status(outcome: HttpOutcome, code: u16) -> bool {
    outcome matches HttpOutcome::Received { status, .. } && status == code
}

/// The outcome is an answer whose status is neither 200 nor 401.
pub open spec fn has_other_status(outcome: HttpOutcome) -> bool {
    outcome matches HttpOutcome::Received { status, .. } && status != 200 && status != 401
}

/// Classifies the outcome of a request, and parses the body of a 200 answer.
pub fn classify_response(outcome: &HttpOutcome) -> (r: Result<Json, SteamError>)
    ensures
        r == classification(*outcome),
        has_status(*outcome, 401) ==> r == Err::<Json, SteamError>(SteamError::Unauthorized),
        has_other_status(*outcome) ==> r matches Err(SteamError::FailedRequest(
            RequestFailure::Status(_),
        )),
{
    match outcome {
        HttpOutcome::Received { status, body } => {
            if *status == 200 {
                match parse_json(body.as_str()) {
                    Some(j) => Ok(j),
                    None => Err(SteamError::FailedRequest(RequestFailure::MalformedBody)),
                }
            } else if *status == 401 {
                Err(SteamError::Unauthorized)
            } else {
                Err(SteamError::FailedRequest(RequestFailure::Status(*status)))
            }
        },
        HttpOutcome::Unreachable(detail) => Err(
            SteamError::FailedRequest(RequestFailure::Transport(detail.clone())),
        ),
    }
}

impl SteamClient {
    /// Returns a new SteamClient instance carrying a developer API token
    pub fn from(api_key: String) -> (r: Self)
        ensures
            r@ == api_key@,
    {
        SteamClient { api_key }
    }

    /// Return a SteamClient without a Steam API token
    pub fn new() -> (r: Self)
        ensures
            r@ == Seq::<char>::empty(),
    {
        SteamClient { api_key: String::new() }
    }

    /// The developer's API key.
    pub fn api_key(&self) -> (r: &str)
        ensures
            r@ == self@,
    {
        self.api_key.as_str()
    }

    /// Whether the client has no API key; only some endpoints answer then.
    pub fn is_anonymous(&self) -> (r: bool)
        ensures
            r == (self@.len() == 0),
    {
        self.api_key.as_str().is_empty()
    }

    /// A GET request to `endpoint` with the API key as parameter `key`,
    /// followed by `params`.
    pub fn build_request(&self, endpoint: &str, params: Vec<(String, QueryValue)>) -> (r:
        SteamRequest)
        ensures
            r.endpoint@ == endpoint@,
            r.query_view() == seq![("key"@, QueryValueView::Text(self@))] + params_view(params@),
    {
        let mut query: Vec<(String, QueryValue)> = Vec::new();
        query.push(("key".to_owned(), QueryValue::Text(self.api_key.clone())));
        let mut params = params;
        let ghost tail = params@;
        query.append(&mut params);
        let r = SteamRequest { endpoint: endpoint.to_owned(), query };
        assert(r.query_view() =~= seq![("key"@, QueryValueView::Text(self@))] + params_view(tail));
        r
    }
}

impl Default for SteamClient {
    fn default() -> (r: Self)
        ensures
            r@ == Seq::<char>::empty(),
    {
        SteamClient::new()
    }
}

} // verus!
