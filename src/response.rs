use vstd::prelude::*;
use crate::json::{
    decode_object, member, object_members, opt_str, parsed_object, string_member, text_member,
    value_into,
};
use crate::text::same_text;

verus! {

/// What a response envelope holds: the HTTP status, the members of the
/// decoded body (absent where the body was not a JSON object), the error
/// flag and the caller's error note.
pub struct ResponseView {
    pub status_code: u16,
    pub members: Option<Map<Seq<char>, Option<Seq<char>>>>,
    pub error: bool,
    pub error_message: Option<Seq<char>>,
}

/// The string member `key` of the decoded body, if any.
pub open spec fn body_text(v: ResponseView, key: Seq<char>) -> Option<Seq<char>> {
    match v.members {
        Some(m) => text_member(m, key),
        None => None,
    }
}

pub open spec fn status_of(v: ResponseView) -> Option<Seq<char>> {
    body_text(v, "status"@)
}

pub open spec fn code_of(v: ResponseView) -> Option<Seq<char>> {
    body_text(v, "code"@)
}

pub open spec fn description_of(v: ResponseView) -> Option<Seq<char>> {
    body_text(v, "description"@)
}

/// Whether the decoded body has a `data` member, of any kind.
pub open spec fn has_data(v: ResponseView) -> bool {
    match v.members {
        Some(m) => m.contains_key("data"@),
        None => false,
    }
}

/// The codes by which the gateway reports success.
pub open spec fn is_success_code(code: Option<Seq<char>>) -> bool {
    code == Some("200"@) || code == Some("00"@) || code == Some("21"@)
}

pub open spec fn succeeded(v: ResponseView) -> bool {
    !v.error && is_success_code(code_of(v))
}

pub open spec fn failed(v: ResponseView) -> bool {
    v.error || !succeeded(v)
}

/// The envelope made from a status code and the body text, where one was
/// read.
pub open spec fn received(status_code: u16, body: Option<Seq<char>>) -> ResponseView {
    ResponseView {
        status_code,
        members: match body {
            Some(text) => parsed_object(text),
            None => None,
        },
        error: status_code >= 400,
        error_message: None,
    }
}

/// Whether a response with this error flag and this `code` member has
/// succeeded: not an error, and a code of `200`, `00` or `21`.
pub fn succeeds_with(error: bool, code: Option<&str>) -> (r: bool)
    ensures
        r == (!error && is_success_code(opt_str(code))),
{
    if error {
        return false;
    }
    match code {
        Some(c) => same_text(c, "200") || same_text(c, "00") || same_text(c, "21"),
        None => false,
    }
}

/// A completed HTTP response, with its body decoded as a JSON object where
/// possible.
#[derive(Debug, Clone)]
pub struct Response {
    status_code: u16,
    decoded_response: Option<serde_json::Map<String, serde_json::Value>>,
    error: bool,
    error_message: Option<String>,
}

impl View for Response {
    type V = ResponseView;

    closed spec fn view(&self) -> ResponseView {
        ResponseView {
            status_code: self.status_code,
            members: match self.decoded_response {
                Some(m) => Some(object_members(m)),
                None => None,
            },
            error: self.error,
            error_message: match self.error_message {
                Some(s) => Some(s@),
                None => None,
            },
        }
    }
}

impl Response {
    /// Wraps a response: `body` is its text, `None` where it could not be
    /// read. A body that is not a JSON object leaves every field absent.
    pub fn new(status_code: u16, body: Option<String>) -> (r: Self)
        ensures
            r@ == received(
                status_code,
                match body {
                    Some(b) => Some(b@),
                    None => None,
                },
            ),
            r@.error == (status_code >= 400),
    {
        let decoded_response = match &body {
            Some(text) => decode_object(text.as_str()),
            None => None,
        };
        let error = status_code >= 400;
        Response { status_code, decoded_response, error, error_message: None }
    }

    fn text_field(&self, key: &str) -> (r: Option<&str>)
        ensures
            opt_str(r) == body_text(self@, key@),
    {
        match &self.decoded_response {
            Some(m) => string_member(m, key),
            None => None,
        }
    }

    /// True when the response is not flagged as an error and its code is one
    /// of `200`, `00` or `21`.
    pub fn has_succeeded(&self) -> (r: bool)
        ensures
            r == succeeded(self@),
    {
        succeeds_with(self.error, self.get_code())
    }

    /// True when the response is flagged as an error or has not succeeded.
    pub fn has_failed(&self) -> (r: bool)
        ensures
            r == failed(self@),
    {
        self.error || !self.has_succeeded()
    }

    /// The `status` member of the body, where it is a string.
    pub fn get_status(&self) -> (r: Option<&str>)
        ensures
            opt_str(r) == status_of(self@),
    {
        self.text_field("status")
    }

    /// The `code` member of the body, where it is a string.
    pub fn get_code(&self) -> (r: Option<&str>)
        ensures
            opt_str(r) == code_of(self@),
    {
        self.text_field("code")
    }

    /// The `description` member of the body, where it is a string.
    pub fn get_description(&self) -> (r: Option<&str>)
        ensures
            opt_str(r) == description_of(self@),
    {
        self.text_field("description")
    }

    /// The `data` member of the body, of any kind.
    pub fn get_raw_data(&self) -> (r: Option<&serde_json::Value>)
        ensures
            r.is_some() == has_data(self@),
    {
        match &self.decoded_response {
            Some(m) => member(m, "data"),
            None => None,
        }
    }

    /// The `data` member read as a `T`; `None` where there is no such member
    /// or its shape does not fit `T`.
    pub fn parse_data<T: serde::de::DeserializeOwned>(&self) -> (r: Option<T>)
        ensures
            !has_data(self@) ==> r.is_none(),
    {
        match self.get_raw_data() {
            Some(value) => value_into(value),
            None => None,
        }
    }

    pub fn get_status_code(&self) -> (r: u16)
        ensures
            r == self@.status_code,
    {
        self.status_code
    }

    /// Overrides the error flag; the body and its code are left as they are.
    pub fn set_error(&mut self, error: bool)
        ensures
            final(self)@ == (ResponseView { error, ..old(self)@ }),
    {
        self.error = error;
    }

    /// Attaches an error note.
    pub fn set_error_message(&mut self, error_message: String)
        ensures
            final(self)@ == (ResponseView { error_message: Some(error_message@), ..old(self)@ }),
    {
        self.error_message = Some(error_message);
    }

    pub fn has_error(&self) -> (r: bool)
        ensures
            r == self@.error,
    {
        self.error
    }

    pub fn get_error_message(&self) -> (r: Option<&String>)
        ensures
            r.is_some() == self@.error_message.is_some(),
            r.is_some() ==> self@.error_message == Some(r.unwrap()@),
    {
        self.error_message.as_ref()
    }

    /// The whole decoded body, where the body was a JSON object.
    pub fn full_json(&self) -> (r: Option<&serde_json::Map<String, serde_json::Value>>)
        ensures
            r.is_some() == self@.members.is_some(),
            r.is_some() ==> self@.members == Some(object_members(*r.unwrap())),
    {
        self.decoded_response.as_ref()
    }
}

/// Any status code of 400 or more marks the response as an error, whatever
/// the body holds.
pub proof fn lemma_client_or_server_status_is_error(status_code: u16, body: Option<Seq<char>>)
    requires
        status_code >= 400,
    ensures
        received(status_code, body).error,
        !succeeded(received(status_code, body)),
{
}

/// Below 400, a response whose body carries the string code `c` has
/// succeeded exactly when `c` is `200`, `00` or `21`.
pub proof fn lemma_success_follows_code(status_code: u16, body: Seq<char>, c: Seq<char>)
    requires
        status_code < 400,
        parsed_object(body).is_some(),
        text_member(parsed_object(body).unwrap(), "code"@) == Some(c),
    ensures
        succeeded(received(status_code, Some(body))) == (c == "200"@ || c == "00"@ || c == "21"@),
{
}

/// Failure is the error flag or the absence of success, and no response both
/// succeeds and fails.
pub proof fn lemma_failure_excludes_success(v: ResponseView)
    ensures
        failed(v) == (!succeeded(v) || v.error),
        !(succeeded(v) && failed(v)),
{
}

/// A body that is not a JSON object leaves every field absent.
pub proof fn lemma_undecodable_body_has_no_fields(status_code: u16, body: Seq<char>)
    requires
        parsed_object(body).is_none(),
    ensures
        status_of(received(status_code, Some(body))).is_none(),
        code_of(received(status_code, Some(body))).is_none(),
        description_of(received(status_code, Some(body))).is_none(),
        !has_data(received(status_code, Some(body))),
        !succeeded(received(status_code, Some(body))),
{
}

} // verus!
