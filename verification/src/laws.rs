//! What holds of every run of the flow client, proved from the
//! definitions of its operations.

use vstd::prelude::*;
use crate::accounts::{
    form_login_executed,
    form_register_executed,
    login_form_checked,
    LoginForm,
    Registration,
};
use crate::client::{flow_read_url, FlowMode, FlowType};
use crate::cookies::{cookie_header, initial_cookies, lemma_header_of_three};
use crate::error::Failure;
use crate::flow::{
    csrf_token_of,
    fetch_outcome,
    first_csrf_node,
    flow_id_of,
    flow_parameter,
    flow_read_request,
    FetchOutcome,
};
use crate::http::{is_redirect, is_success, Answer, Method, Response};
use crate::json::{json_document, JsonValue};
use crate::lookup::{logout_resumed, whoami_outcome, whoami_request, Evidence, Leaving};
use crate::orchestrator::{
    flow_resumed,
    flow_started,
    flow_submitted,
    state_at,
    state_of,
    Advance,
    Attempt,
    FlowState,
    Outcome,
    Secret,
    Stage,
};
use crate::session::{identity_source, lemma_extracted_identity};
use crate::submit::submit_outcome;
use crate::text::{before_first, lacks, lemma_cut_at_char, lemma_no_cut, starts_with};
use crate::usecases::{
    already_logged_in,
    get_session_executed,
    login_executed,
    login_resumed,
    login_started,
    logout_executed,
    signup_executed,
    LoggingIn,
    LoginAttempt,
    SignupInput,
};
use crate::validate::{login_checked, register_checked_with, signup_checked_with};

verus! {

/// The identity of a submission that succeeded has an id that is not
/// empty: the id that the provider's identity object carries.
pub proof fn lemma_submitted_identity(answer: Answer)
    requires
        flow_submitted(answer) is Ok,
    ensures
        ({
            let outcome = flow_submitted(answer)->Ok_0;
            let document = submit_outcome(answer)->Ok_0.data;
            &&& submit_outcome(answer) is Ok
            &&& outcome.identity.id.len() > 0
            &&& identity_source(document).field("id"@).as_text() == Some(outcome.identity.id)
        }),
{
    let document = submit_outcome(answer)->Ok_0.data;
    lemma_extracted_identity(document);
}

/// A login by a caller whose cookie proves an active session is refused,
/// and nothing is fetched or submitted for it: the one request that was
/// sent is the lookup of the session.
pub proof fn lemma_login_refused_when_logged_in(
    public: Seq<char>,
    mode: FlowMode,
    identifier: Seq<char>,
    password: Seq<char>,
    cookie: Seq<char>,
    answer: Answer,
)
    requires
        whoami_outcome(answer) is Ok,
    ensures
        ({
            let begun = login_started(public, mode, identifier, password, Some(cookie));
            &&& begun is Send
            &&& begun->Send_1 == whoami_request(public, Evidence::Cookie(cookie))
            &&& begun->Send_1.method == Method::Get
            &&& login_resumed(public, begun->Send_0, answer) == Advance::<
                LoggingIn,
                Outcome,
            >::Done(Err(already_logged_in()))
            &&& already_logged_in() is ValidationFailure
            &&& whoami_outcome(answer)->Ok_0.active
        }),
{
}

/// A flow document without a node that carries the anti-forgery token has
/// no token.
pub proof fn lemma_no_csrf_node_no_token(document: JsonValue)
    requires
        document.field("ui"@).field("nodes"@).as_items() matches Some(nodes) ==> first_csrf_node(
            nodes,
        ) is None,
    ensures
        csrf_token_of(document) is None,
{
}

/// Fetching a flow whose document has no anti-forgery token fails for the
/// missing field `csrf_token`, whether the document came at once or after
/// a redirect; so the attempt ends there and nothing is posted.
pub proof fn lemma_fetch_without_csrf_fails(public: Seq<char>, run: Attempt, response: Response)
    requires
        run.stage != Stage::Submitted,
        is_success(response.status),
        json_document(response.body) matches Ok(document) && csrf_token_of(document) is None,
    ensures
        flow_resumed(public, run, Answer::Response(response)) == Advance::<
            Attempt,
            Outcome,
        >::Done(Err(Failure::MissingField("csrf_token"@))),
{
}

/// The query of a location is what stands between its first `?` and the
/// `#` that follows, or the end; so the flow id is looked for there and
/// nowhere else.
pub proof fn lemma_flow_id_is_in_the_query(path: Seq<char>, query: Seq<char>, fragment: Seq<char>)
    requires
        lacks(path, '?'),
        lacks(path, '#'),
        lacks(query, '#'),
        fragment.len() == 0 || fragment[0] == '#',
    ensures
        flow_id_of(path + "?"@ + query + fragment) == flow_parameter(query),
{
    reveal_strlit("?");
    reveal_strlit("#");
    assert("?"@ =~= seq!['?']);
    assert("#"@ =~= seq!['#']);
    let location = path + "?"@ + query + fragment;
    let front = path + seq!['?'] + query;
    assert(lacks(front, '#'));
    if fragment.len() == 0 {
        assert(location =~= front);
        lemma_no_cut(front, '#');
    } else {
        assert(location =~= front + seq!['#'] + fragment.skip(1));
        lemma_cut_at_char(front, '#', fragment.skip(1));
    }
    assert(before_first(location, "#"@) == front);
    lemma_cut_at_char(path, '?', query);
}

/// A location without a `?` before its fragment has no query and so no
/// flow id, whatever the fragment holds.
pub proof fn lemma_no_query_no_flow_id(path: Seq<char>, fragment: Seq<char>)
    requires
        lacks(path, '?'),
        lacks(path, '#'),
        fragment.len() == 0 || fragment[0] == '#',
    ensures
        flow_id_of(path + fragment) is None,
{
    reveal_strlit("?");
    reveal_strlit("#");
    assert("?"@ =~= seq!['?']);
    assert("#"@ =~= seq!['#']);
    if fragment.len() == 0 {
        assert(path + fragment =~= path);
        lemma_no_cut(path, '#');
    } else {
        assert(path + fragment =~= path + seq!['#'] + fragment.skip(1));
        lemma_cut_at_char(path, '#', fragment.skip(1));
    }
    lemma_no_cut(path, '?');
}

/// A query that begins with the parameter `flow` carries its value as the
/// flow id: what stands behind `flow=`, up to the `&` that follows, or
/// the end.
pub proof fn lemma_flow_parameter_first(id: Seq<char>, more: Seq<char>)
    requires
        lacks(id, '&'),
        more.len() == 0 || more[0] == '&',
    ensures
        flow_parameter("flow="@ + id + more) == Some(id),
{
    reveal_strlit("flow=");
    reveal_strlit("&");
    assert("&"@ =~= seq!['&']);
    let name = "flow="@;
    let part = name + id;
    let query = name + id + more;
    assert(lacks(part, '&'));
    if more.len() == 0 {
        assert(query =~= part);
        lemma_no_cut(part, '&');
    } else {
        assert(query =~= part + seq!['&'] + more.skip(1));
        lemma_cut_at_char(part, '&', more.skip(1));
    }
    assert(before_first(query, "&"@) == part);
    assert(part.subrange(0, name.len() as int) =~= name);
    assert(part.skip(name.len() as int) =~= id);
}

/// A parameter of another name is passed over, also one whose name ends
/// in `flow`: the flow id is looked for in what follows it.
pub proof fn lemma_flow_parameter_skips(other: Seq<char>, query: Seq<char>)
    requires
        lacks(other, '&'),
        !starts_with(other, "flow="@),
    ensures
        flow_parameter(other + "&"@ + query) == flow_parameter(query),
{
    reveal_strlit("&");
    assert("&"@ =~= seq!['&']);
    lemma_cut_at_char(other, '&', query);
}

/// The flow id of a location is the value of its parameter `flow` and no
/// more: where the query begins with `flow=`, the id is what stands
/// behind it, whether nothing follows the id, or `&` and further
/// parameters, or `#` and a fragment.
pub proof fn lemma_flow_id_of_location(
    path: Seq<char>,
    id: Seq<char>,
    more: Seq<char>,
    fragment: Seq<char>,
)
    requires
        lacks(path, '?'),
        lacks(path, '#'),
        lacks(id, '&'),
        lacks(id, '#'),
        more.len() == 0 || more[0] == '&',
        lacks(more, '#'),
        fragment.len() == 0 || fragment[0] == '#',
    ensures
        flow_id_of(path + "?"@ + "flow="@ + id + more + fragment) == Some(id),
{
    reveal_strlit("flow=");
    let query = "flow="@ + id + more;
    assert(lacks(query, '#'));
    assert(path + "?"@ + "flow="@ + id + more + fragment =~= path + "?"@ + query + fragment);
    lemma_flow_id_is_in_the_query(path, query, fragment);
    lemma_flow_parameter_first(id, more);
}

/// A redirect is followed by reading the flow back: the second request
/// is a GET of the flow-read endpoint for the flow id of the location,
/// and it forwards the caller's cookie and then the cookies that the
/// redirect set.
pub proof fn lemma_redirect_is_followed(
    public: Seq<char>,
    flow: FlowType,
    cookie: Option<Seq<char>>,
    response: Response,
    id: Seq<char>,
)
    requires
        is_redirect(response.status),
        response.location matches Some(location) && flow_id_of(location) == Some(id),
    ensures
        fetch_outcome(public, flow, cookie, Answer::Response(response)) == FetchOutcome::Redirected(
            flow_read_request(public, flow, id, initial_cookies(cookie) + response.set_cookies),
            initial_cookies(cookie) + response.set_cookies,
        ),
        flow_read_request(
            public,
            flow,
            id,
            initial_cookies(cookie) + response.set_cookies,
        ).method == Method::Get,
        flow_read_request(
            public,
            flow,
            id,
            initial_cookies(cookie) + response.set_cookies,
        ).url == flow_read_url(public, flow, id),
{
}

/// A redirect whose location carries the parameter `flow` is followed
/// by a GET of the flow-read endpoint for that parameter's value alone:
/// what follows the value in the location, further parameters or a
/// fragment, does not reach the request.
pub proof fn lemma_redirect_reads_the_parameter(
    public: Seq<char>,
    flow: FlowType,
    cookie: Option<Seq<char>>,
    response: Response,
    path: Seq<char>,
    id: Seq<char>,
    more: Seq<char>,
    fragment: Seq<char>,
)
    requires
        is_redirect(response.status),
        response.location == Some(path + "?"@ + "flow="@ + id + more + fragment),
        lacks(path, '?'),
        lacks(path, '#'),
        lacks(id, '&'),
        lacks(id, '#'),
        more.len() == 0 || more[0] == '&',
        lacks(more, '#'),
        fragment.len() == 0 || fragment[0] == '#',
    ensures
        fetch_outcome(public, flow, cookie, Answer::Response(response)) == FetchOutcome::Redirected(
            flow_read_request(public, flow, id, initial_cookies(cookie) + response.set_cookies),
            initial_cookies(cookie) + response.set_cookies,
        ),
        flow_read_request(
            public,
            flow,
            id,
            initial_cookies(cookie) + response.set_cookies,
        ).url == flow_read_url(public, flow, id),
{
    lemma_flow_id_of_location(path, id, more, fragment);
}

/// The cookies of a chain are forwarded in the order of their arrival.
/// Where the provider redirects and then hands the flow out, the
/// submission carries one `Cookie` header: the caller's cookie, then the
/// cookies that the first answer set, then those that the second set.
pub proof fn lemma_submission_forwards_all_cookies(
    public: Seq<char>,
    mode: FlowMode,
    credentials: Secret,
    cookie: Option<Seq<char>>,
    first: Response,
    second: Response,
)
    requires
        is_redirect(first.status),
        first.location matches Some(location) && flow_id_of(location) is Some,
        is_success(second.status),
        json_document(second.body) matches Ok(document) && csrf_token_of(document) is Some
            && document.field("id"@).as_text() is Some,
    ensures
        ({
            let begun = flow_started(public, mode, credentials, cookie);
            let redirected = flow_resumed(public, begun->Send_0, Answer::Response(first));
            let fetched = flow_resumed(public, redirected->Send_0, Answer::Response(second));
            &&& begun is Send
            &&& redirected is Send
            &&& redirected->Send_0.stage == Stage::AwaitingFlowRead
            &&& fetched is Send
            &&& fetched->Send_0.stage == Stage::Submitted
            &&& fetched->Send_1.method == Method::Post
            &&& fetched->Send_1.cookie == Some(
                cookie_header(initial_cookies(cookie) + first.set_cookies + second.set_cookies),
            )
        }),
{
}

/// Where the provider hands the flow out at once, the submission carries
/// the caller's cookie and then the cookies that the answer set; a
/// caller's cookie is forwarded even where the provider sets none.
pub proof fn lemma_direct_fetch_forwards_all_cookies(
    public: Seq<char>,
    mode: FlowMode,
    credentials: Secret,
    cookie: Option<Seq<char>>,
    first: Response,
)
    requires
        is_success(first.status),
        json_document(first.body) matches Ok(document) && csrf_token_of(document) is Some
            && document.field("id"@).as_text() is Some,
    ensures
        ({
            let begun = flow_started(public, mode, credentials, cookie);
            let fetched = flow_resumed(public, begun->Send_0, Answer::Response(first));
            &&& fetched is Send
            &&& fetched->Send_0.stage == Stage::Submitted
            &&& fetched->Send_1.method == Method::Post
            &&& fetched->Send_1.cookie == Some(
                cookie_header(initial_cookies(cookie) + first.set_cookies),
            )
            &&& (cookie matches Some(c) && first.set_cookies.len() == 0) ==> fetched->Send_1.cookie
                == cookie
        }),
{
    if cookie is Some && first.set_cookies.len() == 0 {
        assert(initial_cookies(cookie) + first.set_cookies =~= initial_cookies(cookie));
    }
}

/// The cookies that a completed attempt hands back for the client are
/// those that the submission's answer set, in their order, and no others.
pub proof fn lemma_outcome_cookies(response: Response)
    requires
        flow_submitted(Answer::Response(response)) is Ok,
    ensures
        flow_submitted(Answer::Response(response))->Ok_0.cookies == response.set_cookies,
        is_success(response.status),
{
}

/// A caller's cookie `a`, and the provider's cookies `b` and `c` from the
/// two hops of a fetch, reach the submission as exactly `a; b; c`.
pub proof fn lemma_three_cookies_in_order(
    public: Seq<char>,
    mode: FlowMode,
    credentials: Secret,
    a: Seq<char>,
    b: Seq<char>,
    c: Seq<char>,
    first: Response,
    second: Response,
)
    requires
        is_redirect(first.status),
        first.location matches Some(location) && flow_id_of(location) is Some,
        first.set_cookies == seq![b],
        is_success(second.status),
        second.set_cookies == seq![c],
        json_document(second.body) matches Ok(document) && csrf_token_of(document) is Some
            && document.field("id"@).as_text() is Some,
    ensures
        ({
            let begun = flow_started(public, mode, credentials, Some(a));
            let redirected = flow_resumed(public, begun->Send_0, Answer::Response(first));
            let fetched = flow_resumed(public, redirected->Send_0, Answer::Response(second));
            &&& fetched is Send
            &&& fetched->Send_1.method == Method::Post
            &&& fetched->Send_1.cookie == Some(a + "; "@ + b + "; "@ + c)
        }),
{
    lemma_submission_forwards_all_cookies(public, mode, credentials, Some(a), first, second);
    lemma_header_of_three(a, b, c);
}

/// A session lookup that is answered with anything but a success says
/// that the caller is not authenticated, and says no more: neither the
/// status nor the body of the answer is handed on.
pub proof fn lemma_lookup_hides_provider_errors(response: Response)
    requires
        !is_success(response.status),
    ensures
        whoami_outcome(Answer::Response(response)) == Err::<
            crate::session::SessionRecord,
            Failure,
        >(Failure::Unauthorized),
{
}

/// A session that a lookup hands out is active.
pub proof fn lemma_lookup_is_authenticated(answer: Answer)
    requires
        whoami_outcome(answer) is Ok,
    ensures
        whoami_outcome(answer)->Ok_0.authenticated(),
        whoami_outcome(answer)->Ok_0.identity.id.len() > 0,
{
    let document = json_document(answer->Response_0.body)->Ok_0;
    lemma_extracted_identity(document);
}

/// A session lookup reads and changes nothing, and its result rests on
/// the status and the document of the answer alone: not on the cookies
/// that the answer sets, nor on its location, nor on how its body is
/// written. So two lookups that the provider answers alike hand out the
/// same session, with the same identity id.
pub proof fn lemma_lookup_is_repeatable(first: Response, second: Response)
    requires
        first.status == second.status,
        json_document(first.body) == json_document(second.body),
    ensures
        whoami_outcome(Answer::Response(first)) == whoami_outcome(Answer::Response(second)),
        whoami_outcome(Answer::Response(first)) is Ok ==> whoami_outcome(
            Answer::Response(first),
        )->Ok_0.identity.id == whoami_outcome(Answer::Response(second))->Ok_0.identity.id,
{
}

/// Inputs that do not pass the check end a registration before anything
/// is sent.
pub proof fn lemma_refused_signup_sends_nothing(
    public: Seq<char>,
    input: SignupInput,
    email_ok: bool,
)
    requires
        signup_checked_with(input.email, input.password, email_ok) is Err,
    ensures
        signup_executed(public, input, email_ok) == Advance::<Attempt, Outcome>::Done(
            Err(signup_checked_with(input.email, input.password, email_ok)->Err_0),
        ),
        signup_checked_with(input.email, input.password, email_ok)->Err_0 is ValidationFailure,
{
}

/// Inputs that do not pass the check end a login before anything is sent.
pub proof fn lemma_refused_login_sends_nothing(public: Seq<char>, input: LoginAttempt)
    requires
        login_checked(input.identifier, input.password) is Err,
    ensures
        login_executed(public, input) == Advance::<LoggingIn, Outcome>::Done(
            Err(login_checked(input.identifier, input.password)->Err_0),
        ),
        login_checked(input.identifier, input.password)->Err_0 is ValidationFailure,
{
}

/// A login form that does not pass the check ends the login before
/// anything is sent.
pub proof fn lemma_refused_form_login_sends_nothing(
    public: Seq<char>,
    form: LoginForm,
    cookie: Option<Seq<char>>,
)
    requires
        login_form_checked(form) is Err,
    ensures
        form_login_executed(public, form, cookie) == Advance::<LoggingIn, Outcome>::Done(
            Err(login_form_checked(form)->Err_0),
        ),
        login_form_checked(form)->Err_0 is ValidationFailure,
{
}

/// A registration form that does not pass the check ends the
/// registration before anything is sent.
pub proof fn lemma_refused_form_registration_sends_nothing(
    public: Seq<char>,
    form: Registration,
    cookie: Option<Seq<char>>,
    email_ok: bool,
)
    requires
        register_checked_with(form.email, form.username, form.password, email_ok) is Err,
    ensures
        form_register_executed(public, form, cookie, email_ok) == Advance::<
            Attempt,
            Outcome,
        >::Done(
            Err(register_checked_with(form.email, form.username, form.password, email_ok)->Err_0),
        ),
        register_checked_with(form.email, form.username, form.password, email_ok)->Err_0
            is ValidationFailure,
{
}

/// An empty token ends a logout and a session lookup before anything is
/// sent.
pub proof fn lemma_empty_token_sends_nothing(public: Seq<char>)
    ensures
        logout_executed(public, Seq::empty()) is Done,
        get_session_executed(public, Seq::empty()) is Done,
        logout_executed(public, Seq::empty())->Done_0 is Err,
        get_session_executed(public, Seq::empty())->Done_0 is Err,
        logout_executed(public, Seq::empty())->Done_0->Err_0 is ValidationFailure,
        get_session_executed(public, Seq::empty())->Done_0->Err_0 is ValidationFailure,
{
}

/// A logout has succeeded exactly when its second request is answered
/// with a success; it then hands back the cookies that this answer set.
pub proof fn lemma_logout_succeeds_on_second_success(run: Leaving, answer: Answer)
    ensures
        (logout_resumed(run, answer) is Done && logout_resumed(run, answer)->Done_0 is Ok) <==> (
        run is AwaitingLogout && answer is Response && is_success(answer->Response_0.status)),
        (logout_resumed(run, answer) is Done && logout_resumed(run, answer)->Done_0 is Ok)
            ==> logout_resumed(run, answer)->Done_0->Ok_0 == answer->Response_0.set_cookies,
{
}

/// How far a state is along the way of an attempt.
pub open spec fn rank(state: FlowState) -> int {
    match state {
        FlowState::Unstarted => 0,
        FlowState::FlowFetched => 1,
        FlowState::Submitted => 2,
        FlowState::Completed => 3,
        FlowState::Failed => 3,
    }
}

/// An attempt moves forward only: its state never falls back, it
/// completes only from a submission, it posts only once the flow is
/// fetched, and what it posts is the submission.
pub proof fn lemma_attempt_moves_forward(public: Seq<char>, run: Attempt, answer: Answer)
    ensures
        ({
            let next = flow_resumed(public, run, answer);
            &&& rank(state_at(run.stage)) <= rank(state_of(next))
            &&& state_of(next) == FlowState::Completed ==> state_at(run.stage)
                == FlowState::Submitted
            &&& next matches Advance::Done(Ok(_)) ==> run.stage == Stage::Submitted
            &&& run.stage == Stage::Submitted ==> next is Done
            &&& next matches Advance::Send(after, request) ==> {
                &&& after.stage != Stage::AwaitingFlow
                &&& after.credentials == run.credentials
                &&& after.cookie == run.cookie
                &&& (after.stage == Stage::Submitted <==> request.method == Method::Post)
                &&& (after.stage == Stage::AwaitingFlowRead ==> run.stage == Stage::AwaitingFlow)
            }
        }),
{
}

} // verus!
