//! Submitting a flow: the body that carries the credentials, the request
//! that posts it, and what the provider's answer comes to.

use vstd::prelude::*;
use crate::client::{flow_submit_url, FlowType, KratosClient};
use crate::cookies::cookie_header;
use crate::error::{AuthError, Failure};
use crate::http::{is_success, Answer, HttpRequest, Method, Reply, Request};
use crate::json::{
    entry_models,
    json_document,
    lemma_object_view,
    parsed_view,
    put_entry,
    Json,
    JsonValue,
    Member,
};
use crate::text::{join, same_text, texts};

verus! {

/// What a submission brought back: the answer's document and the cookies
/// that the answer set. The cookies that were sent are not among them.
#[derive(Debug, PartialEq)]
pub struct PostFlowResult {
    pub data: Json,
    pub cookies: Vec<String>,
}

/// The model of a [`PostFlowResult`].
pub struct Submitted {
    pub data: JsonValue,
    pub cookies: Seq<Seq<char>>,
}

impl View for PostFlowResult {
    type V = Submitted;

    open spec fn view(&self) -> Submitted {
        Submitted { data: self.data@, cookies: texts(self.cookies@) }
    }
}

/// The model of a submission's result.
pub open spec fn submitted_view(r: Result<PostFlowResult, AuthError>) -> Result<Submitted, Failure> {
    match r {
        Ok(p) => Ok(p@),
        Err(e) => Err(e@),
    }
}

/// Whether a free-form trait is left out of the merge: `email` and
/// `password` are, so that they cannot overwrite the required fields.
pub open spec fn reserved_trait(key: Seq<char>) -> bool {
    key == "email"@ || key == "password"@
}

/// `base` with the entries of `extra` merged in, in their order, each
/// taking the place of an entry with the same key; reserved keys are left out.
pub open spec fn merged_traits(
    base: Seq<(Seq<char>, JsonValue)>,
    extra: Seq<(Seq<char>, JsonValue)>,
) -> Seq<(Seq<char>, JsonValue)>
    decreases extra.len(),
{
    if extra.len() == 0 {
        base
    } else {
        let before = merged_traits(base, extra.drop_last());
        let entry = extra.last();
        if reserved_trait(entry.0) {
            before
        } else {
            put_entry(before, entry.0, entry.1)
        }
    }
}

/// The `traits` object of a registration: the email, then the free-form
/// traits that are not reserved.
pub open spec fn registration_traits(email: Seq<char>, extra: JsonValue) -> JsonValue {
    let base = seq![("email"@, JsonValue::Text(email))];
    match extra {
        JsonValue::Object(entries) => JsonValue::Object(merged_traits(base, entries)),
        _ => JsonValue::Object(base),
    }
}

/// The body that registers with a password.
pub open spec fn registration_body(
    email: Seq<char>,
    password: Seq<char>,
    csrf_token: Seq<char>,
    extra: JsonValue,
) -> JsonValue {
    JsonValue::Object(
        seq![
            ("method"@, JsonValue::Text("password"@)),
            ("password"@, JsonValue::Text(password)),
            ("traits"@, registration_traits(email, extra)),
            ("csrf_token"@, JsonValue::Text(csrf_token)),
        ],
    )
}

/// The body that logs in with a password.
pub open spec fn login_body(
    identifier: Seq<char>,
    password: Seq<char>,
    csrf_token: Seq<char>,
) -> JsonValue {
    JsonValue::Object(
        seq![
            ("method"@, JsonValue::Text("password"@)),
            ("password"@, JsonValue::Text(password)),
            ("identifier"@, JsonValue::Text(identifier)),
            ("csrf_token"@, JsonValue::Text(csrf_token)),
        ],
    )
}

/// The request that submits `body` against the flow `id`: a POST to the
/// submission endpoint with one `Cookie` header that joins `cookies`.
pub open spec fn submit_request(
    public: Seq<char>,
    flow: FlowType,
    id: Seq<char>,
    body: JsonValue,
    cookies: Seq<Seq<char>>,
) -> Request {
    Request {
        method: Method::Post,
        url: flow_submit_url(public, flow, id),
        cookie: Some(cookie_header(cookies)),
        session_token: None,
        body: Some(body),
    }
}

/// What a submission's answer, with its body read or refused, comes to.
pub open spec fn submission_of_document(
    status: u16,
    parsed: Result<JsonValue, Seq<char>>,
    cookies: Seq<Seq<char>>,
) -> Result<Submitted, Failure> {
    match parsed {
        Ok(document) => Ok(Submitted { data: document, cookies: cookies }),
        Err(message) => Err(Failure::ProtocolFailure(status, message)),
    }
}

/// What the answer to a submission comes to.
pub open spec fn submit_outcome(answer: Answer) -> Result<Submitted, Failure> {
    match answer {
        Answer::Unreachable(message) => Err(Failure::NetworkFailure(message)),
        Answer::Response(r) => if is_success(r.status) {
            submission_of_document(r.status, json_document(r.body), r.set_cookies)
        } else {
            Err(Failure::ProtocolFailure(r.status, r.body))
        },
    }
}

/// One entry of an object.
fn entry(key: &str, value: Json) -> (out: Member)
    ensures
        out.key@ == key@,
        out.value@ == value@,
{
    Member { key: key.to_owned(), value }
}

/// The `traits` object of a registration.
pub fn build_registration_traits(email: &str, extra: &Json) -> (out: Json)
    ensures
        out@ == registration_traits(email@, extra@),
{
    let mut base: Vec<Member> = Vec::new();
    base.push(entry("email", Json::text(email)));
    let mut out = Json::Object(base);
    proof {
        lemma_object_view(base);
        assert(entry_models(base@) =~= seq![("email"@, JsonValue::Text(email@))]);
    }
    match extra {
        Json::Object(entries) => {
            proof {
                lemma_object_view(*entries);
            }
            let ghost all = entry_models(entries@);
            let ghost first = seq![("email"@, JsonValue::Text(email@))];
            let mut i: usize = 0;
            assert(all.take(0) =~= Seq::empty());
            while i < entries.len()
                invariant
                    i <= entries.len(),
                    all == entry_models(entries@),
                    out@ == JsonValue::Object(merged_traits(first, all.take(i as int))),
                decreases entries.len() - i,
            {
                let key = entries[i].key.as_str();
                proof {
                    assert(all.take(i + 1).drop_last() =~= all.take(i as int));
                    assert(all.take(i + 1).last() == all[i as int]);
                }
                if !(same_text(key, "email") || same_text(key, "password")) {
                    out = out.with(key, entries[i].value.duplicate());
                }
                i += 1;
            }
            assert(all.take(entries.len() as int) =~= all);
            out
        },
        _ => out,
    }
}

/// The body that registers with a password.
pub fn build_registration_body(
    email: &str,
    password: &str,
    csrf_token: &str,
    extra: &Json,
) -> (out: Json)
    ensures
        out@ == registration_body(email@, password@, csrf_token@, extra@),
{
    let mut entries: Vec<Member> = Vec::new();
    entries.push(entry("method", Json::text("password")));
    entries.push(entry("password", Json::text(password)));
    entries.push(entry("traits", build_registration_traits(email, extra)));
    entries.push(entry("csrf_token", Json::text(csrf_token)));
    proof {
        lemma_object_view(entries);
        assert(entry_models(entries@) =~= registration_body(
            email@,
            password@,
            csrf_token@,
            extra@,
        )->Object_0);
    }
    Json::Object(entries)
}

/// The body that logs in with a password.
pub fn build_login_body(identifier: &str, password: &str, csrf_token: &str) -> (out: Json)
    ensures
        out@ == login_body(identifier@, password@, csrf_token@),
{
    let mut entries: Vec<Member> = Vec::new();
    entries.push(entry("method", Json::text("password")));
    entries.push(entry("password", Json::text(password)));
    entries.push(entry("identifier", Json::text(identifier)));
    entries.push(entry("csrf_token", Json::text(csrf_token)));
    proof {
        lemma_object_view(entries);
        assert(entry_models(entries@) =~= login_body(identifier@, password@, csrf_token@)->Object_0);
    }
    Json::Object(entries)
}

/// What a submission's answer, with its body read or refused, comes to.
pub fn submission_from_document(
    status: u16,
    parsed: Result<Json, String>,
    cookies: Vec<String>,
) -> (r: Result<PostFlowResult, AuthError>)
    ensures
        submitted_view(r) == submission_of_document(
            status,
            parsed_view(parsed),
            texts(cookies@),
        ),
{
    match parsed {
        Ok(data) => Ok(PostFlowResult { data, cookies }),
        Err(message) => Err(AuthError::ProtocolFailure(status, message)),
    }
}

impl KratosClient {
    /// The request that submits `data` against the flow `flow_id`, with
    /// one `Cookie` header that joins `cookies`.
    pub fn post_flow(
        &self,
        flow: FlowType,
        flow_id: &str,
        data: Json,
        cookies: &Vec<String>,
    ) -> (request: HttpRequest)
        ensures
            request@ == submit_request(self@.public, flow, flow_id@, data@, texts(cookies@)),
    {
        HttpRequest::post(self.flow_submit_url(flow, flow_id), Some(join(cookies, "; ")), data)
    }

    /// What the answer to a submission comes to.
    pub fn flow_posted(&self, reply: Reply) -> (r: Result<PostFlowResult, AuthError>)
        ensures
            submitted_view(r) == submit_outcome(reply@),
    {
        match reply {
            Reply::Unreachable(message) => Err(AuthError::NetworkFailure(message)),
            Reply::Response(response) => {
                if response.is_success() {
                    let parsed = Json::parse(response.body.as_str());
                    submission_from_document(response.status, parsed, response.set_cookies)
                } else {
                    Err(AuthError::ProtocolFailure(response.status, response.body))
                }
            },
        }
    }
}

} // verus!
