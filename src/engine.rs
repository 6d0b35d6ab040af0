use vstd::prelude::*;
use vstd::string::*;
use crate::environment::{base_url_of, Environment};
use crate::filter::opt_text;
use crate::model::{AccountView, SettlementAccount};

verus! {

/// The HTTP method of a request.
#[derive(Debug, Clone, Copy, PartialEq, Eq, Structural)]
pub enum Method {
    Get,
    Post,
    Patch,
}

/// A member value of a JSON request body.
#[derive(Debug, Clone, PartialEq, Eq)]
pub enum JsonField {
    Text(String),
    Flag(bool),
    Accounts(Vec<SettlementAccount>),
}

/// What a member value holds.
pub enum FieldValue {
    Text(Seq<char>),
    Flag(bool),
    Accounts(Seq<AccountView>),
}

impl View for JsonField {
    type V = FieldValue;

    open spec fn view(&self) -> FieldValue {
        match self {
            JsonField::Text(s) => FieldValue::Text(s@),
            JsonField::Flag(b) => FieldValue::Flag(*b),
            JsonField::Accounts(list) => FieldValue::Accounts(list@.map_values(|a: SettlementAccount| a@)),
        }
    }
}

/// A JSON object to send as a request body: its members in order. Only
/// present options become members.
#[derive(Debug, Clone, PartialEq, Eq)]
pub struct Payload {
    pub members: Vec<(String, JsonField)>,
}

impl View for Payload {
    type V = Seq<(Seq<char>, FieldValue)>;

    open spec fn view(&self) -> Seq<(Seq<char>, FieldValue)> {
        self.members@.map_values(|m: (String, JsonField)| (m.0@, m.1@))
    }
}

/// The member for an optional text: none where it is absent.
pub open spec fn opt_text_member(key: Seq<char>, value: Option<Seq<char>>) -> Seq<(Seq<char>, FieldValue)> {
    match value {
        Some(v) => seq![(key, FieldValue::Text(v))],
        None => Seq::empty(),
    }
}

/// The member for an optional flag: none where it is absent.
pub open spec fn opt_flag_member(key: Seq<char>, value: Option<bool>) -> Seq<(Seq<char>, FieldValue)> {
    match value {
        Some(v) => seq![(key, FieldValue::Flag(v))],
        None => Seq::empty(),
    }
}

impl Payload {
    /// An object with no members.
    pub fn new() -> (r: Self)
        ensures
            r@ == Seq::<(Seq<char>, FieldValue)>::empty(),
    {
        let r = Payload { members: Vec::new() };
        assert(r@ =~= Seq::empty());
        r
    }

    /// Adds a member.
    pub fn push(&mut self, key: &str, value: JsonField)
        ensures
            final(self)@ == old(self)@.push((key@, value@)),
    {
        self.members.push((String::from_str(key), value));
        assert(final(self)@ =~= old(self)@.push((key@, value@)));
    }

    /// Adds a text member.
    pub fn push_text(&mut self, key: &str, value: String)
        ensures
            final(self)@ == old(self)@.push((key@, FieldValue::Text(value@))),
    {
        self.push(key, JsonField::Text(value));
    }

    /// Adds a text member where the value is present.
    pub fn push_opt_text(&mut self, key: &str, value: Option<String>)
        ensures
            final(self)@ == old(self)@ + opt_text_member(key@, opt_text(value)),
    {
        match value {
            Some(v) => self.push_text(key, v),
            None => {},
        }
        assert(final(self)@ =~= old(self)@ + opt_text_member(key@, opt_text(value)));
    }

    /// Adds a boolean member.
    pub fn push_flag(&mut self, key: &str, value: bool)
        ensures
            final(self)@ == old(self)@.push((key@, FieldValue::Flag(value))),
    {
        self.push(key, JsonField::Flag(value));
    }

    /// Adds a boolean member where the value is present.
    pub fn push_opt_flag(&mut self, key: &str, value: Option<bool>)
        ensures
            final(self)@ == old(self)@ + opt_flag_member(key@, value),
    {
        match value {
            Some(v) => self.push_flag(key, v),
            None => {},
        }
        assert(final(self)@ =~= old(self)@ + opt_flag_member(key@, value));
    }
}

/// What a request to send holds.
pub struct RequestView {
    pub method: Method,
    pub url: Seq<char>,
    pub authorization: Seq<char>,
    pub payload: Option<Seq<(Seq<char>, FieldValue)>>,
}

/// A request ready to send: method, full URL, the value of the
/// `Authorization` header and, for POST and PATCH, the JSON body (sent with
/// `Content-Type: application/json`).
#[derive(Debug, Clone, PartialEq, Eq)]
pub struct ApiRequest {
    pub method: Method,
    pub url: String,
    pub authorization: String,
    pub payload: Option<Payload>,
}

impl View for ApiRequest {
    type V = RequestView;

    open spec fn view(&self) -> RequestView {
        RequestView {
            method: self.method,
            url: self.url@,
            authorization: self.authorization@,
            payload: match self.payload {
                Some(p) => Some(p@),
                None => None,
            },
        }
    }
}

/// The text without its leading slashes.
pub open spec fn trim_leading_slashes(s: Seq<char>) -> Seq<char>
    decreases s.len(),
{
    if s.len() > 0 && s[0] == '/' {
        trim_leading_slashes(s.drop_first())
    } else {
        s
    }
}

/// The text without its trailing slashes.
pub open spec fn trim_trailing_slashes(s: Seq<char>) -> Seq<char>
    decreases s.len(),
{
    if s.len() > 0 && s.last() == '/' {
        trim_trailing_slashes(s.drop_last())
    } else {
        s
    }
}

/// A base URL and a path joined by exactly one slash.
pub open spec fn joined_url(base: Seq<char>, path: Seq<char>) -> Seq<char> {
    trim_trailing_slashes(base) + "/"@ + trim_leading_slashes(path)
}

proof fn lemma_trimmed_front(s: Seq<char>)
    ensures
        trim_leading_slashes(s).len() == 0 || trim_leading_slashes(s)[0] != '/',
    decreases s.len(),
{
    if s.len() > 0 && s[0] == '/' {
        lemma_trimmed_front(s.drop_first());
    }
}

proof fn lemma_trimmed_back(s: Seq<char>)
    ensures
        trim_trailing_slashes(s).len() == 0 || trim_trailing_slashes(s).last() != '/',
    decreases s.len(),
{
    if s.len() > 0 && s.last() == '/' {
        lemma_trimmed_back(s.drop_last());
    }
}

/// Whatever slashes the base URL ends with and the path starts with, the
/// joined URL has exactly one slash between them.
pub proof fn lemma_single_slash_join(base: Seq<char>, path: Seq<char>)
    ensures
        joined_url(base, path) == trim_trailing_slashes(base) + "/"@ + trim_leading_slashes(path),
        trim_trailing_slashes(base).len() == 0 || trim_trailing_slashes(base).last() != '/',
        trim_leading_slashes(path).len() == 0 || trim_leading_slashes(path)[0] != '/',
{
    lemma_trimmed_front(path);
    lemma_trimmed_back(base);
}

/// The settings of a client: base URL and merchant key.
pub struct EngineView {
    pub base_url: Seq<char>,
    pub merchant_key: Seq<char>,
}

/// The request that a client with settings `e` makes for a path.
pub open spec fn request_to(
    e: EngineView,
    method: Method,
    path: Seq<char>,
    payload: Option<Seq<(Seq<char>, FieldValue)>>,
) -> RequestView {
    RequestView {
        method,
        url: joined_url(e.base_url, path),
        authorization: "Bearer "@ + e.merchant_key,
        payload,
    }
}

/// The client settings shared by every service: where to send requests and
/// the bearer credential to send with them.
#[derive(Debug, Clone)]
pub struct Engine {
    pub base_url: String,
    pub merchant_key: String,
}

impl View for Engine {
    type V = EngineView;

    open spec fn view(&self) -> EngineView {
        EngineView { base_url: self.base_url@, merchant_key: self.merchant_key@ }
    }
}

fn without_leading_slashes(s: &str) -> (r: &str)
    ensures
        r@ == trim_leading_slashes(s@),
{
    let n = s.unicode_len();
    let mut i: usize = 0;
    assert(s@.subrange(0, n as int) =~= s@);
    while i < n && s.get_char(i) == '/'
        invariant
            n == s@.len(),
            i <= n,
            trim_leading_slashes(s@) == trim_leading_slashes(s@.subrange(i as int, n as int)),
        decreases n - i,
    {
        let ghost rest = s@.subrange(i as int, n as int);
        assert(rest.drop_first() =~= s@.subrange(i + 1, n as int));
        i = i + 1;
    }
    s.substring_char(i, n)
}

fn without_trailing_slashes(s: &str) -> (r: &str)
    ensures
        r@ == trim_trailing_slashes(s@),
{
    let n = s.unicode_len();
    let mut j: usize = n;
    assert(s@.subrange(0, n as int) =~= s@);
    while j > 0 && s.get_char(j - 1) == '/'
        invariant
            n == s@.len(),
            j <= n,
            trim_trailing_slashes(s@) == trim_trailing_slashes(s@.subrange(0, j as int)),
        decreases j,
    {
        let ghost head = s@.subrange(0, j as int);
        assert(head.drop_last() =~= s@.subrange(0, j - 1));
        j = j - 1;
    }
    s.substring_char(0, j)
}

impl Engine {
    /// A client for a deployment; `None` where the deployment has no base
    /// URL.
    pub fn new(environment: Environment, merchant_key: &str) -> (r: Option<Self>)
        ensures
            r.is_some() == base_url_of(environment).is_some(),
            r.is_some() ==> r.unwrap()@ == (EngineView {
                base_url: base_url_of(environment).unwrap(),
                merchant_key: merchant_key@,
            }),
    {
        match environment.base_url() {
            Some(url) => Some(
                Engine { base_url: String::from_str(url), merchant_key: String::from_str(merchant_key) },
            ),
            None => None,
        }
    }

    /// The full URL of a path: the base URL and the path joined by exactly
    /// one slash.
    pub fn url_for(&self, path: &str) -> (r: String)
        ensures
            r@ == joined_url(self.base_url@, path@),
    {
        let base = without_trailing_slashes(self.base_url.as_str());
        let mut url = String::from_str(base);
        url.append("/");
        url.append(without_leading_slashes(path));
        url
    }

    /// The value of the `Authorization` header: `Bearer <merchant key>`.
    pub fn authorization(&self) -> (r: String)
        ensures
            r@ == "Bearer "@ + self.merchant_key@,
    {
        let mut r = String::from_str("Bearer ");
        r.append(self.merchant_key.as_str());
        r
    }

    fn request(&self, method: Method, path: &str, payload: Option<Payload>) -> (r: ApiRequest)
        ensures
            r@ == request_to(
                self@,
                method,
                path@,
                match payload {
                    Some(p) => Some(p@),
                    None => None,
                },
            ),
    {
        ApiRequest { method, url: self.url_for(path), authorization: self.authorization(), payload }
    }

    /// A GET request for a path.
    pub fn get(&self, path: &str) -> (r: ApiRequest)
        ensures
            r@ == request_to(self@, Method::Get, path@, None),
    {
        self.request(Method::Get, path, None)
    }

    /// A POST request for a path with a JSON body.
    pub fn post(&self, path: &str, body: Payload) -> (r: ApiRequest)
        ensures
            r@ == request_to(self@, Method::Post, path@, Some(body@)),
    {
        self.request(Method::Post, path, Some(body))
    }

    /// A PATCH request for a path with a JSON body.
    pub fn patch(&self, path: &str, body: Payload) -> (r: ApiRequest)
        ensures
            r@ == request_to(self@, Method::Patch, path@, Some(body@)),
    {
        self.request(Method::Patch, path, Some(body))
    }
}

} // verus!
