//! Prepared requests and classified responses.

use crate::auth::{
    create_auth_headers, create_get_auth_headers, given_model, is_encode_failure,
    payload_or_empty, payload_signature,
};
use crate::decimal::{decimal_text, render_signed, render_unsigned};
use crate::error::WusulError;
use crate::json::{lemma_object_model, payload_text, serialize, JsonModel, JsonValue};
use std::time::Duration;
use vstd::prelude::*;
use vstd::string::StringExecFns;

verus! {

/// The HTTP method of a request.
#[derive(Debug, Clone, Copy, PartialEq, Eq, Structural)]
pub enum Method {
    Get,
    Post,
    Patch,
    Delete,
}

/// A request that is ready to be sent: everything the transport needs, and
/// nothing it has to decide.
#[derive(Debug, Clone, PartialEq, Eq)]
pub struct PreparedRequest {
    pub method: Method,
    /// The base URL followed by the resource path.
    pub url: String,
    /// Header fields, name and value, in the order in which they are set.
    pub headers: Vec<(String, String)>,
    /// Entries of the query string, in order; they are not yet escaped.
    pub query: Vec<(String, String)>,
    /// The JSON text of the body, where the request has one.
    pub body: Option<String>,
}

/// The mathematical content of a [`PreparedRequest`].
pub struct RequestModel {
    pub method: Method,
    pub url: Seq<char>,
    pub headers: Seq<(Seq<char>, Seq<char>)>,
    pub query: Seq<(Seq<char>, Seq<char>)>,
    pub body: Option<Seq<char>>,
}

impl View for PreparedRequest {
    type V = RequestModel;

    open spec fn view(&self) -> RequestModel {
        RequestModel {
            method: self.method,
            url: self.url@,
            headers: self.headers.deep_view(),
            query: self.query.deep_view(),
            body: match self.body {
                Some(text) => Some(text@),
                None => None,
            },
        }
    }
}

/// The header fields of an authenticated request: the account id, the
/// signature of the payload, and the content type.
pub open spec fn auth_header_fields(account_id: Seq<char>, signature: Seq<char>) -> Seq<
    (Seq<char>, Seq<char>),
> {
    seq![
        ("X-ACCT-ID"@, account_id),
        ("X-PAYLOAD-SIG"@, signature),
        ("Content-Type"@, "application/json"@),
    ]
}

/// The text that stands in the query string for a parameter's value: a
/// string as it is, an integer in decimal, a boolean as `true` or `false`.
/// Null, arrays and objects have none.
pub open spec fn query_text(value: JsonModel) -> Option<Seq<char>> {
    match value {
        JsonModel::Text(text) => Some(text),
        JsonModel::Number(n) => Some(decimal_text(n)),
        JsonModel::Bool(b) => Some(
            if b {
                "true"@
            } else {
                "false"@
            },
        ),
        _ => None,
    }
}

/// The entry of the query string for a member of the parameter object, if it
/// has one.
pub open spec fn query_entry(member: (Seq<char>, JsonModel)) -> Option<(Seq<char>, Seq<char>)> {
    match query_text(member.1) {
        Some(text) => Some((member.0, text)),
        None => None,
    }
}

/// The entries of the query string for the members of a parameter object:
/// one for each member that has a text, in the members' order.
pub open spec fn member_entries(members: Seq<(Seq<char>, JsonModel)>) -> Seq<
    (Seq<char>, Seq<char>),
> {
    members.filter_map(|member: (Seq<char>, JsonModel)| query_entry(member))
}

/// The entries of the query string for the parameters of a GET request.
/// Parameters that are no object give none.
pub open spec fn query_entries(params: Option<JsonModel>) -> Seq<(Seq<char>, Seq<char>)> {
    match params {
        Some(JsonModel::Object(members)) => member_entries(members),
        _ => Seq::empty(),
    }
}

/// The payload that a request is signed over: the query parameters of a
/// GET, the body of a POST or PATCH, and nothing for a DELETE.
pub open spec fn signed_payload(method: Method, payload: Option<JsonModel>) -> JsonModel {
    match method {
        Method::Delete => payload_or_empty(None),
        _ => payload_or_empty(payload),
    }
}

/// The body of a request: POST and PATCH carry the JSON text of their
/// payload, GET and DELETE carry none.
pub open spec fn body_text(method: Method, payload: Option<JsonModel>) -> Option<Seq<char>> {
    match method {
        Method::Post | Method::Patch => payload_text(payload_or_empty(payload)),
        _ => None,
    }
}

/// What identifies a client: the account, its secret, the base URL, and the
/// timeout of a request.
pub struct ClientModel {
    pub account_id: Seq<char>,
    pub shared_secret: Seq<char>,
    pub base_url: Seq<char>,
    pub timeout: Duration,
}

/// The request that a client prepares for a method, a path and a payload,
/// where the payload can be signed.
pub open spec fn planned_request(
    client: ClientModel,
    method: Method,
    path: Seq<char>,
    payload: Option<JsonModel>,
) -> Option<RequestModel> {
    match payload_signature(client.shared_secret, signed_payload(method, payload)) {
        Some(signature) => Some(
            RequestModel {
                method,
                url: client.base_url + path,
                headers: auth_header_fields(client.account_id, signature),
                query: match method {
                    Method::Get => query_entries(payload),
                    _ => Seq::empty(),
                },
                body: body_text(method, payload),
            },
        ),
        None => None,
    }
}

/// Whatever the method and the payload, a planned request goes to the base
/// URL followed by the path, names the configured account in its first
/// header field, and carries the signature of what it signs in the second.
pub proof fn lemma_planned_request_names_the_account(
    client: ClientModel,
    method: Method,
    path: Seq<char>,
    payload: Option<JsonModel>,
)
    requires
        planned_request(client, method, path, payload) is Some,
    ensures
        planned_request(client, method, path, payload)->0.url == client.base_url + path,
        planned_request(client, method, path, payload)->0.headers.len() == 3,
        planned_request(client, method, path, payload)->0.headers[0] == (
            "X-ACCT-ID"@,
            client.account_id,
        ),
        Some(planned_request(client, method, path, payload)->0.headers[1].1) == payload_signature(
            client.shared_secret,
            signed_payload(method, payload),
        ),
{
}

/// Whether `out` is what preparing a request owes: the planned request
/// where the payload can be signed, and else the error that says why it
/// cannot.
pub open spec fn is_planned(
    out: Result<PreparedRequest, WusulError>,
    client: ClientModel,
    method: Method,
    path: Seq<char>,
    payload: Option<JsonModel>,
) -> bool {
    match out {
        Ok(request) => Some(request@) == planned_request(client, method, path, payload),
        Err(error) => is_encode_failure(payload_text(signed_payload(method, payload)), error),
    }
}

/// Whether a status is a success: 200 to 299.
pub open spec fn is_success(status: u16) -> bool {
    200 <= status <= 299
}

/// The message of a status-based error: the text of the response body,
/// or `Unknown error` where the body could not be read.
pub open spec fn error_message(body: Result<String, reqwest::Error>) -> Seq<char> {
    match body {
        Ok(text) => text@,
        Err(_) => "Unknown error"@,
    }
}

/// Whether `error` is the error of a status that is no success: 404 is
/// not-found, 429 rate-limited, 408 a timeout, 401 and 403 authentication
/// errors, and every other status an API error that carries the status.
/// Not-found, authentication and API errors carry the message.
pub open spec fn is_status_error(status: u16, message: Seq<char>, error: WusulError) -> bool {
    if status == 404 {
        error matches WusulError::NotFound(text) && text@ == message
    } else if status == 429 {
        error is RateLimitExceeded
    } else if status == 408 {
        error is Timeout
    } else if status == 401 || status == 403 {
        error matches WusulError::AuthError(text) && text@ == message
    } else {
        &&& error matches WusulError::ApiError { status: code, message: text }
        &&& code == status
        &&& text@ == message
    }
}

/// Whether `out` is the outcome of a response with the given status, whose
/// body was read with the outcome `body`. A success hands the body text
/// back; where the body of a success could not be read, that failure of
/// the transport is the error. Every other status is a status-based error.
pub open spec fn is_response_outcome(
    out: Result<String, WusulError>,
    status: u16,
    body: Result<String, reqwest::Error>,
) -> bool {
    match out {
        Ok(text) => is_success(status) && body == Ok::<String, reqwest::Error>(text),
        Err(error) => if is_success(status) {
            body matches Err(cause) && error == WusulError::HttpError(cause)
        } else {
            is_status_error(status, error_message(body), error)
        },
    }
}

/// A status-based error is never a failure of the transport, a
/// serialization error, a configuration error or an invalid parameter.
pub proof fn lemma_status_errors_are_status_based(
    status: u16,
    message: Seq<char>,
    error: WusulError,
)
    requires
        is_status_error(status, message, error),
    ensures
        !(error is HttpError),
        !(error is SerializationError),
        !(error is ConfigError),
        !(error is InvalidParameter),
        error is NotFound <==> status == 404,
        error is RateLimitExceeded <==> status == 429,
        error is Timeout <==> status == 408,
        error is AuthError <==> status == 401 || status == 403,
{
}

/// Prepares the authenticated requests of the Wusul API and classifies its
/// responses. It sends nothing itself.
pub struct HttpClient {
    account_id: String,
    shared_secret: String,
    base_url: String,
    timeout: Duration,
}

impl View for HttpClient {
    type V = ClientModel;

    closed spec fn view(&self) -> ClientModel {
        ClientModel {
            account_id: self.account_id@,
            shared_secret: self.shared_secret@,
            base_url: self.base_url@,
            timeout: self.timeout,
        }
    }
}

/// The entries of the query string for the parameters of a GET request.
pub fn query_pairs(params: Option<&JsonValue>) -> (out: Vec<(String, String)>)
    ensures
        out.deep_view() == query_entries(given_model(params)),
{
    let mut out: Vec<(String, String)> = Vec::new();
    assert(out.deep_view() =~= Seq::empty());
    match params {
        Some(JsonValue::Object(members)) => {
            let ghost model = params.unwrap()@->Object_0;
            proof {
                lemma_object_model(*members);
            }
            let ghost entry = |member: (Seq<char>, JsonModel)| query_entry(member);
            let mut i: usize = 0;
            assert(model.take(0) =~= Seq::empty());
            while i < members.len()
                invariant
                    0 <= i <= members.len(),
                    model.len() == members.len(),
                    forall|k: int|
                        0 <= k < members.len() ==> model[k] == (
                            (#[trigger] members@[k]).0@,
                            members@[k].1@,
                        ),
                    entry == |member: (Seq<char>, JsonModel)| query_entry(member),
                    out.deep_view() == model.take(i as int).filter_map(entry),
                decreases members.len() - i,
            {
                let member = &members[i];
                let ghost before = out.deep_view();
                proof {
                    model.lemma_filter_map_take_succ(entry, i as int);
                }
                match &member.1 {
                    JsonValue::String(text) => {
                        out.push((member.0.clone(), text.clone()));
                        assert(out.deep_view() =~= before.push((member.0@, text@)));
                    },
                    JsonValue::Int(n) => {
                        let text = render_signed(*n);
                        out.push((member.0.clone(), text));
                        assert(out.deep_view() =~= before.push((member.0@, decimal_text(*n as int))));
                    },
                    JsonValue::UInt(n) => {
                        let text = render_unsigned(*n);
                        out.push((member.0.clone(), text));
                        assert(out.deep_view() =~= before.push((member.0@, decimal_text(*n as int))));
                    },
                    JsonValue::Bool(b) => {
                        let text = if *b {
                            String::from_str("true")
                        } else {
                            String::from_str("false")
                        };
                        out.push((member.0.clone(), text));
                        assert(out.deep_view() =~= before.push((member.0@, text@)));
                    },
                    _ => {},
                }
                i += 1;
            }
            assert(model.take(members.len() as int) =~= model);
        },
        _ => {},
    }
    out
}

impl HttpClient {
    /// Creates a client. Nothing is validated here and nothing can fail: the
    /// result is always `Ok`.
    pub fn new(account_id: String, shared_secret: String, base_url: String, timeout: Duration) -> (out:
        Result<HttpClient, WusulError>)
        ensures
            out matches Ok(client) && client@ == (ClientModel {
                account_id: account_id@,
                shared_secret: shared_secret@,
                base_url: base_url@,
                timeout,
            }),
    {
        Ok(HttpClient { account_id, shared_secret, base_url, timeout })
    }

    /// The account that requests are made for.
    pub fn account_id(&self) -> (out: &String)
        ensures
            out@ == self@.account_id,
    {
        &self.account_id
    }

    /// The URL that resource paths are appended to.
    pub fn base_url(&self) -> (out: &String)
        ensures
            out@ == self@.base_url,
    {
        &self.base_url
    }

    /// The time after which the transport gives up on a request.
    pub fn timeout(&self) -> (out: Duration)
        ensures
            out == self@.timeout,
    {
        self.timeout
    }

    fn url_for(&self, path: &str) -> (out: String)
        ensures
            out@ == self@.base_url + path@,
    {
        let mut url = self.base_url.clone();
        url.append(path);
        url
    }

    fn header_fields(account_id: String, signature: String) -> (out: Vec<(String, String)>)
        ensures
            out.deep_view() == auth_header_fields(account_id@, signature@),
    {
        let mut out: Vec<(String, String)> = Vec::new();
        out.push((String::from_str("X-ACCT-ID"), account_id));
        out.push((String::from_str("X-PAYLOAD-SIG"), signature));
        out.push((String::from_str("Content-Type"), String::from_str("application/json")));
        assert(out.deep_view() =~= auth_header_fields(account_id@, signature@));
        out
    }

    /// Prepares a GET request. The query parameters are what is signed, and
    /// each of them that is a string, an integer or a boolean becomes an
    /// entry of the query string; the others are left out of it.
    pub fn get(&self, path: &str, query_params: Option<&JsonValue>) -> (out: Result<
        PreparedRequest,
        WusulError,
    >)
        ensures
            is_planned(out, self@, Method::Get, path@, given_model(query_params)),
    {
        let url = self.url_for(path);
        match create_get_auth_headers(
            self.account_id.as_str(),
            self.shared_secret.as_str(),
            query_params,
        ) {
            Ok(pair) => {
                let (account_id, signature) = pair;
                Ok(
                    PreparedRequest {
                        method: Method::Get,
                        url,
                        headers: Self::header_fields(account_id, signature),
                        query: query_pairs(query_params),
                        body: None,
                    },
                )
            },
            Err(error) => Err(error),
        }
    }

    fn with_body(&self, method: Method, path: &str, data: Option<&JsonValue>) -> (out: Result<
        PreparedRequest,
        WusulError,
    >)
        requires
            method == Method::Post || method == Method::Patch,
        ensures
            is_planned(out, self@, method, path@, given_model(data)),
    {
        let url = self.url_for(path);
        match create_auth_headers(self.account_id.as_str(), self.shared_secret.as_str(), data) {
            Ok(pair) => {
                let (account_id, signature) = pair;
                let serialized = match data {
                    Some(value) => serialize(value),
                    None => serialize(&JsonValue::empty_object()),
                };
                match serialized {
                    Ok(text) => {
                        let query: Vec<(String, String)> = Vec::new();
                        assert(query.deep_view() =~= Seq::empty());
                        Ok(
                            PreparedRequest {
                                method,
                                url,
                                headers: Self::header_fields(account_id, signature),
                                query,
                                body: Some(text),
                            },
                        )
                    },
                    Err(cause) => Err(WusulError::SerializationError(cause)),
                }
            },
            Err(error) => Err(error),
        }
    }

    /// Prepares a POST request. Its body is the JSON text of `data`, or of
    /// the empty object where there is none, and that is what is signed.
    pub fn post(&self, path: &str, data: Option<&JsonValue>) -> (out: Result<
        PreparedRequest,
        WusulError,
    >)
        ensures
            is_planned(out, self@, Method::Post, path@, given_model(data)),
    {
        self.with_body(Method::Post, path, data)
    }

    /// Prepares a PATCH request. Its body is the JSON text of `data`, or of
    /// the empty object where there is none, and that is what is signed.
    pub fn patch(&self, path: &str, data: Option<&JsonValue>) -> (out: Result<
        PreparedRequest,
        WusulError,
    >)
        ensures
            is_planned(out, self@, Method::Patch, path@, given_model(data)),
    {
        self.with_body(Method::Patch, path, data)
    }

    /// Prepares a DELETE request. It has no body and is signed as a request
    /// with the empty object.
    pub fn delete(&self, path: &str) -> (out: Result<PreparedRequest, WusulError>)
        ensures
            is_planned(out, self@, Method::Delete, path@, None),
    {
        let url = self.url_for(path);
        match create_auth_headers(self.account_id.as_str(), self.shared_secret.as_str(), None) {
            Ok(pair) => {
                let (account_id, signature) = pair;
                let query: Vec<(String, String)> = Vec::new();
                assert(query.deep_view() =~= Seq::empty());
                Ok(
                    PreparedRequest {
                        method: Method::Delete,
                        url,
                        headers: Self::header_fields(account_id, signature),
                        query,
                        body: None,
                    },
                )
            },
            Err(error) => Err(error),
        }
    }

    /// Classifies a response by its status and the outcome of reading its
    /// body: a success hands back the body text, which the caller decodes;
    /// every other status is an error.
    pub fn handle_response(&self, status: u16, body: Result<String, reqwest::Error>) -> (out:
        Result<String, WusulError>)
        ensures
            is_response_outcome(out, status, body),
    {
        if 200 <= status && status <= 299 {
            match body {
                Ok(text) => Ok(text),
                Err(cause) => Err(WusulError::HttpError(cause)),
            }
        } else {
            let message = match body {
                Ok(text) => text,
                Err(_) => String::from_str("Unknown error"),
            };
            if status == 404 {
                Err(WusulError::NotFound(message))
            } else if status == 429 {
                Err(WusulError::RateLimitExceeded)
            } else if status == 408 {
                Err(WusulError::Timeout)
            } else if status == 401 || status == 403 {
                Err(WusulError::AuthError(message))
            } else {
                Err(WusulError::ApiError { status, message })
            }
        }
    }

    /// Finishes the decoding of a successful response: a body that could
    /// not be decoded is a serialization error.
    pub fn decoded<T>(&self, decoded: Result<T, serde_json::Error>) -> (out: Result<T, WusulError>)
        ensures
            out == match decoded {
                Ok(value) => Ok::<T, WusulError>(value),
                Err(cause) => Err::<T, WusulError>(WusulError::SerializationError(cause)),
            },
    {
        match decoded {
            Ok(value) => Ok(value),
            Err(cause) => Err(WusulError::SerializationError(cause)),
        }
    }
}

} // verus!
