//! Fetching a flow: the request that initiates it, the redirect that the
//! provider may answer with, and the anti-forgery token of the flow document.

use vstd::prelude::*;
use crate::client::{flow_init_url, flow_read_url, FlowMode, FlowType, KratosClient};
use crate::cookies::{cookie_header, initial_cookies, CookieSet};
use crate::error::{AuthError, Failure};
use crate::http::{
    is_redirect,
    is_success,
    Answer,
    HttpRequest,
    HttpResponse,
    Method,
    Reply,
    Request,
    Response,
};
use crate::json::{json_document, models, parsed_view, Json, JsonValue};
use crate::text::{
    after_first,
    before_first,
    lemma_first_occurrence_some,
    opt_str,
    opt_text,
    same_text,
    strip_prefix,
    text_after_first,
    text_before_first,
    texts,
    without_prefix,
};

verus! {

/// Whether a node of a flow's UI description is the one that carries the
/// anti-forgery token: its `attributes.name` is `csrf_token`.
pub open spec fn is_csrf_node(node: JsonValue) -> bool {
    node.field("attributes"@).field("name"@).as_text() == Some("csrf_token"@)
}

/// The first node that carries the anti-forgery token.
pub open spec fn first_csrf_node(nodes: Seq<JsonValue>) -> Option<JsonValue>
    decreases nodes.len(),
{
    if nodes.len() == 0 {
        None
    } else if is_csrf_node(nodes[0]) {
        Some(nodes[0])
    } else {
        first_csrf_node(nodes.skip(1))
    }
}

/// The anti-forgery token of a flow document: the text under
/// `attributes.value` of the first node under `ui.nodes` whose
/// `attributes.name` is `csrf_token`.
pub open spec fn csrf_token_of(flow: JsonValue) -> Option<Seq<char>> {
    match flow.field("ui"@).field("nodes"@).as_items() {
        Some(nodes) => match first_csrf_node(nodes) {
            Some(node) => node.field("attributes"@).field("value"@).as_text(),
            None => None,
        },
        None => None,
    }
}

/// The query of a location: with the fragment left out, which begins at
/// the first `#`, what follows the first `?`.
pub open spec fn query_of(location: Seq<char>) -> Option<Seq<char>> {
    after_first(before_first(location, "#"@), "?"@)
}

/// The value of the parameter named `flow` in a query: of the parts that
/// `&` cuts the query into, the first that begins with `flow=`, without
/// that prefix.
pub open spec fn flow_parameter(query: Seq<char>) -> Option<Seq<char>>
    decreases query.len(),
{
    match without_prefix(before_first(query, "&"@), "flow="@) {
        Some(value) => Some(value),
        None => match after_first(query, "&"@) {
            Some(rest) => if rest.len() < query.len() {
                flow_parameter(rest)
            } else {
                None
            },
            None => None,
        },
    }
}

/// The flow id that a redirect location carries: the value of the
/// parameter named `flow` in the location's query.
pub open spec fn flow_id_of(location: Seq<char>) -> Option<Seq<char>> {
    match query_of(location) {
        Some(query) => flow_parameter(query),
        None => None,
    }
}

/// A fetched flow: its document, its anti-forgery token, and the cookies of
/// the chain so far.
#[derive(Debug, PartialEq)]
pub struct FlowResult {
    pub flow: Json,
    pub csrf_token: String,
    pub cookies: Vec<String>,
}

/// The model of a [`FlowResult`].
pub struct FetchedFlow {
    pub flow: JsonValue,
    pub csrf_token: Seq<char>,
    pub cookies: Seq<Seq<char>>,
}

impl View for FlowResult {
    type V = FetchedFlow;

    open spec fn view(&self) -> FetchedFlow {
        FetchedFlow {
            flow: self.flow@,
            csrf_token: self.csrf_token@,
            cookies: texts(self.cookies@),
        }
    }
}

/// A flow that can be submitted: one attempt at a login or a
/// registration, known to the provider under its id.
#[derive(Debug, PartialEq)]
pub struct Flow {
    pub id: String,
    pub flow_type: FlowType,
    pub csrf_token: String,
    /// The flow document as the provider sent it.
    pub raw: Json,
}

/// The model of a [`Flow`].
pub struct FlowRecord {
    pub id: Seq<char>,
    pub flow_type: FlowType,
    pub csrf_token: Seq<char>,
    pub raw: JsonValue,
}

impl View for Flow {
    type V = FlowRecord;

    open spec fn view(&self) -> FlowRecord {
        FlowRecord {
            id: self.id@,
            flow_type: self.flow_type,
            csrf_token: self.csrf_token@,
            raw: self.raw@,
        }
    }
}

/// The flow of the given kind that was fetched: its id is the text under
/// `id` of the flow document, which must be there.
pub open spec fn flow_of(fetched: FetchedFlow, flow_type: FlowType) -> Result<FlowRecord, Failure> {
    match fetched.flow.field("id"@).as_text() {
        None => Err(Failure::MissingField("flow.id"@)),
        Some(id) => Ok(
            FlowRecord {
                id: id,
                flow_type: flow_type,
                csrf_token: fetched.csrf_token,
                raw: fetched.flow,
            },
        ),
    }
}

/// What the first answer of a fetch leads to.
#[derive(Debug, PartialEq)]
pub enum FetchStep {
    /// The answer was the flow itself.
    Fetched(FlowResult),
    /// The answer was a redirect: the request that reads the flow back, and
    /// the cookies of the chain so far.
    Redirected(HttpRequest, Vec<String>),
    /// The fetch failed.
    Failed(AuthError),
}

/// The model of a [`FetchStep`].
pub enum FetchOutcome {
    Fetched(FetchedFlow),
    Redirected(Request, Seq<Seq<char>>),
    Failed(Failure),
}

impl View for FetchStep {
    type V = FetchOutcome;

    open spec fn view(&self) -> FetchOutcome {
        match self {
            FetchStep::Fetched(f) => FetchOutcome::Fetched(f@),
            FetchStep::Redirected(r, cookies) => FetchOutcome::Redirected(r@, texts(cookies@)),
            FetchStep::Failed(e) => FetchOutcome::Failed(e@),
        }
    }
}

/// The model of a fetch's final result.
pub open spec fn fetched_view(r: Result<FlowResult, AuthError>) -> Result<FetchedFlow, Failure> {
    match r {
        Ok(f) => Ok(f@),
        Err(e) => Err(e@),
    }
}

/// The request that initiates a flow: a GET of the initiation endpoint that
/// forwards the caller's cookie, if there is one.
pub open spec fn fetch_request(
    public: Seq<char>,
    flow: FlowType,
    mode: FlowMode,
    cookie: Option<Seq<char>>,
) -> Request {
    Request {
        method: Method::Get,
        url: flow_init_url(public, flow, mode),
        cookie: cookie,
        session_token: None,
        body: None,
    }
}

/// The `Cookie` header that forwards `cookies`: none where there is no cookie.
pub open spec fn forwarded(cookies: Seq<Seq<char>>) -> Option<Seq<char>> {
    if cookies.len() == 0 {
        None
    } else {
        Some(cookie_header(cookies))
    }
}

/// The request that reads the flow `id` back: a GET of the flow-read
/// endpoint that forwards every cookie of the chain so far.
pub open spec fn flow_read_request(
    public: Seq<char>,
    flow: FlowType,
    id: Seq<char>,
    cookies: Seq<Seq<char>>,
) -> Request {
    Request {
        method: Method::Get,
        url: flow_read_url(public, flow, id),
        cookie: forwarded(cookies),
        session_token: None,
        body: None,
    }
}

/// What a flow document that was read, or failed to be read, comes to:
/// a parse error is a protocol failure with the error's message, a document
/// without an anti-forgery token a missing field.
pub open spec fn flow_of_document(
    status: u16,
    parsed: Result<JsonValue, Seq<char>>,
    cookies: Seq<Seq<char>>,
) -> Result<FetchedFlow, Failure> {
    match parsed {
        Err(message) => Err(Failure::ProtocolFailure(status, message)),
        Ok(document) => match csrf_token_of(document) {
            Some(token) => Ok(FetchedFlow { flow: document, csrf_token: token, cookies: cookies }),
            None => Err(Failure::MissingField("csrf_token"@)),
        },
    }
}

/// What the answer to a flow-read request comes to. `cookies` are those of
/// the chain before this answer; the answer's own are added behind them.
pub open spec fn flow_read_outcome(
    cookies: Seq<Seq<char>>,
    answer: Answer,
) -> Result<FetchedFlow, Failure> {
    match answer {
        Answer::Unreachable(message) => Err(Failure::NetworkFailure(message)),
        Answer::Response(r) => if is_success(r.status) {
            flow_of_document(r.status, json_document(r.body), cookies + r.set_cookies)
        } else {
            Err(Failure::ProtocolFailure(r.status, r.body))
        },
    }
}

/// What the answer to a flow-initiating request comes to.
pub open spec fn fetch_outcome(
    public: Seq<char>,
    flow: FlowType,
    cookie: Option<Seq<char>>,
    answer: Answer,
) -> FetchOutcome {
    match answer {
        Answer::Unreachable(message) => FetchOutcome::Failed(Failure::NetworkFailure(message)),
        Answer::Response(r) => {
            let cookies = initial_cookies(cookie) + r.set_cookies;
            if is_redirect(r.status) {
                match r.location {
                    None => FetchOutcome::Failed(Failure::MissingField("location"@)),
                    Some(location) => match flow_id_of(location) {
                        None => FetchOutcome::Failed(Failure::MissingField("flow"@)),
                        Some(id) => FetchOutcome::Redirected(
                            flow_read_request(public, flow, id, cookies),
                            cookies,
                        ),
                    },
                }
            } else {
                match flow_read_outcome(initial_cookies(cookie), answer) {
                    Ok(fetched) => FetchOutcome::Fetched(fetched),
                    Err(failure) => FetchOutcome::Failed(failure),
                }
            }
        },
    }
}

impl FlowResult {
    /// The flow of the given kind that was fetched, and beside it the
    /// cookies of the chain so far.
    pub fn into_flow(self, flow_type: FlowType) -> (r: Result<(Flow, Vec<String>), AuthError>)
        ensures
            match r {
                Ok((flow, cookies)) => flow_of(self@, flow_type) == Ok::<FlowRecord, Failure>(
                    flow@,
                ) && texts(cookies@) == self@.cookies,
                Err(e) => flow_of(self@, flow_type) == Err::<FlowRecord, Failure>(e@),
            },
    {
        match self.flow.text_at("id") {
            None => Err(AuthError::missing("flow.id")),
            Some(id) => Ok(
                (
                    Flow { id, flow_type, csrf_token: self.csrf_token, raw: self.flow },
                    self.cookies,
                ),
            ),
        }
    }
}

/// The first node of `nodes` that carries the anti-forgery token.
fn find_csrf_node<'a>(nodes: &'a Vec<Json>) -> (r: Option<&'a Json>)
    ensures
        match r {
            Some(node) => first_csrf_node(models(nodes@)) == Some(node@),
            None => first_csrf_node(models(nodes@)) is None,
        },
{
    let ghost all = models(nodes@);
    let mut i: usize = 0;
    assert(all.skip(0) =~= all);
    while i < nodes.len()
        invariant
            i <= nodes.len(),
            all == models(nodes@),
            first_csrf_node(all) == first_csrf_node(all.skip(i as int)),
        decreases nodes.len() - i,
    {
        let node = &nodes[i];
        let is_token = match node.get_in("attributes", "name") {
            Some(name) => match name.as_str() {
                Some(text) => same_text(text, "csrf_token"),
                None => false,
            },
            None => false,
        };
        proof {
            assert(all.skip(i as int)[0] == node@);
            assert(all.skip(i as int).skip(1) =~= all.skip(i + 1));
        }
        if is_token {
            return Some(node);
        }
        i += 1;
    }
    None
}

/// The anti-forgery token of a flow document.
pub fn extract_csrf_token(flow: &Json) -> (r: Option<String>)
    ensures
        opt_text(r) == csrf_token_of(flow@),
{
    match flow.get_in("ui", "nodes") {
        Some(list) => match list.as_array() {
            Some(nodes) => match find_csrf_node(nodes) {
                Some(node) => node.text_in("attributes", "value"),
                None => None,
            },
            None => None,
        },
        None => None,
    }
}

/// The value of the parameter named `flow` in a query.
pub fn flow_parameter_of(query: &str) -> (r: Option<String>)
    ensures
        opt_text(r) == flow_parameter(query@),
{
    let mut rest = query.to_owned();
    loop
        invariant
            flow_parameter(query@) == flow_parameter(rest@),
        decreases rest@.len(),
    {
        let part = text_before_first(rest.as_str(), "&");
        match strip_prefix(part.as_str(), "flow=") {
            Some(value) => {
                return Some(value);
            },
            None => {},
        }
        match text_after_first(rest.as_str(), "&") {
            Some(next) => {
                proof {
                    reveal_strlit("&");
                    lemma_first_occurrence_some(rest@, "&"@, 0);
                }
                rest = next;
            },
            None => {
                return None;
            },
        }
    }
}

/// The flow id that a redirect location carries.
pub fn flow_id_from_location(location: &str) -> (r: Option<String>)
    ensures
        opt_text(r) == flow_id_of(location@),
{
    let without_fragment = text_before_first(location, "#");
    match text_after_first(without_fragment.as_str(), "?") {
        Some(query) => flow_parameter_of(query.as_str()),
        None => None,
    }
}

/// The `Cookie` header that forwards `cookies`.
pub fn forward_cookies(cookies: &Vec<String>) -> (r: Option<String>)
    ensures
        opt_text(r) == forwarded(texts(cookies@)),
{
    if cookies.len() == 0 {
        None
    } else {
        Some(crate::text::join(cookies, "; "))
    }
}

/// The cookies of a chain after an answer: those before it, then the
/// answer's own.
pub fn accumulate(before: Vec<String>, received: Vec<String>) -> (out: Vec<String>)
    ensures
        texts(out@) == texts(before@) + texts(received@),
{
    let mut set = CookieSet::from_vec(before);
    set.extend(&received);
    set.into_vec()
}

/// What a flow document that was read, or failed to be read, comes to.
pub fn flow_from_document(
    status: u16,
    parsed: Result<Json, String>,
    cookies: Vec<String>,
) -> (r: Result<FlowResult, AuthError>)
    ensures
        fetched_view(r) == flow_of_document(
            status,
            parsed_view(parsed),
            texts(cookies@),
        ),
{
    match parsed {
        Err(message) => Err(AuthError::ProtocolFailure(status, message)),
        Ok(document) => match extract_csrf_token(&document) {
            Some(token) => Ok(FlowResult { flow: document, csrf_token: token, cookies }),
            None => Err(AuthError::missing("csrf_token")),
        },
    }
}

impl KratosClient {
    /// The request that initiates a flow.
    pub fn fetch_flow(
        &self,
        flow: FlowType,
        mode: FlowMode,
        cookie: Option<&str>,
    ) -> (request: HttpRequest)
        ensures
            request@ == fetch_request(
                self@.public,
                flow,
                mode,
                opt_str(cookie),
            ),
    {
        let forwarded = match cookie {
            Some(c) => Some(c.to_owned()),
            None => None,
        };
        HttpRequest::get(self.flow_init_url(flow, mode), forwarded)
    }

    /// What the answer to a flow-read request comes to.
    pub fn flow_read(
        &self,
        cookies: Vec<String>,
        reply: Reply,
    ) -> (r: Result<FlowResult, AuthError>)
        ensures
            fetched_view(r) == flow_read_outcome(texts(cookies@), reply@),
    {
        match reply {
            Reply::Unreachable(message) => Err(AuthError::NetworkFailure(message)),
            Reply::Response(response) => {
                if response.is_success() {
                    let parsed = Json::parse(response.body.as_str());
                    let all = accumulate(cookies, response.set_cookies);
                    flow_from_document(response.status, parsed, all)
                } else {
                    Err(AuthError::ProtocolFailure(response.status, response.body))
                }
            },
        }
    }

    /// What the answer to a flow-initiating request comes to.
    pub fn flow_initiated(
        &self,
        flow: FlowType,
        cookie: Option<&str>,
        reply: Reply,
    ) -> (step: FetchStep)
        ensures
            step@ == fetch_outcome(
                self@.public,
                flow,
                opt_str(cookie),
                reply@,
            ),
    {
        let prior = CookieSet::from_cookie(cookie).into_vec();
        match reply {
            Reply::Unreachable(message) => FetchStep::Failed(AuthError::NetworkFailure(message)),
            Reply::Response(response) => {
                if response.is_redirect() {
                    let HttpResponse { status, set_cookies, location, body } = response;
                    let cookies = accumulate(prior, set_cookies);
                    match location {
                        None => FetchStep::Failed(AuthError::missing("location")),
                        Some(target) => match flow_id_from_location(target.as_str()) {
                            None => FetchStep::Failed(AuthError::missing("flow")),
                            Some(id) => {
                                let request = HttpRequest::get(
                                    self.flow_read_url(flow, id.as_str()),
                                    forward_cookies(&cookies),
                                );
                                FetchStep::Redirected(request, cookies)
                            },
                        },
                    }
                } else {
                    match self.flow_read(prior, Reply::Response(response)) {
                        Ok(fetched) => FetchStep::Fetched(fetched),
                        Err(failure) => FetchStep::Failed(failure),
                    }
                }
            },
        }
    }
}

} // verus!
