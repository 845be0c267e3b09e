//! The handling of one request, from its method to the reply.
//!
//! A request with any method but `GET` is answered as not found. A `GET`
//! request starts a search for the most recent bulletin at the current hour,
//! has the bulletin decoded, and is answered with the latest value of every
//! sensor type. A failure at any point is answered with its message.
//!
//! The functions here decide; the caller acts. [`accept`] says what to do
//! first, [`fetched`] what to do after an attempt to fetch, and [`decoded`]
//! how to reply once the bulletin is decoded.

use crate::clock::current_hour;
use crate::extract::{extract, extracted};
use crate::model::{Contenitore, ContenitoreView};
use crate::readings::Readings;
use crate::resolver::{
    exhausted_message, next, next_spec, rank, resolution, start, start_spec,
    status_is_success, unpublished, Fetched, FetchedView, Step, StepView,
};
use vstd::prelude::*;
use vstd::string::{StrSliceExecFns, StringExecFns};

verus! {

/// The reply to a request.
#[derive(Clone, Debug)]
pub enum Reply {
    /// Success: the latest value of every sensor type.
    Readings(Readings),
    /// Failure: its description, sent as plain text.
    Failure(String),
    /// The request did not use the one method that is served. No body.
    NotFound,
}

/// What the caller is to do next.
#[derive(Clone, Debug)]
pub enum Action {
    /// Fetch the bulletin of `hour` from `url` and report with [`fetched`].
    Fetch { hour: u8, url: String },
    /// Decode the bulletin in `body` and report with [`decoded`].
    Decode { body: Vec<u8> },
    /// Send the reply. The request is done.
    Respond(Reply),
}

/// Mathematical content of a [`Reply`].
pub enum ReplyView {
    Readings(Map<Seq<char>, u64>),
    Failure(Seq<char>),
    NotFound,
}

/// Mathematical content of an [`Action`].
pub enum ActionView {
    Fetch { hour: nat, url: Seq<char> },
    Decode { body: Seq<u8> },
    Respond(ReplyView),
}

impl View for Reply {
    type V = ReplyView;

    open spec fn view(&self) -> ReplyView {
        match *self {
            Reply::Readings(readings) => ReplyView::Readings(readings@),
            Reply::Failure(message) => ReplyView::Failure(message@),
            Reply::NotFound => ReplyView::NotFound,
        }
    }
}

impl View for Action {
    type V = ActionView;

    open spec fn view(&self) -> ActionView {
        match *self {
            Action::Fetch { hour, url } => ActionView::Fetch { hour: hour as nat, url: url@ },
            Action::Decode { body } => ActionView::Decode { body: body@ },
            Action::Respond(reply) => ActionView::Respond(reply@),
        }
    }
}

/// The status code of a reply.
pub open spec fn status_spec(reply: ReplyView) -> u16 {
    match reply {
        ReplyView::Readings(_) => 200,
        ReplyView::Failure(_) => 500,
        ReplyView::NotFound => 404,
    }
}

/// The only method that is served.
pub open spec fn is_read_spec(method: Seq<char>) -> bool {
    method == "GET"@
}

/// How the message of a bulletin that could not be decoded begins.
pub open spec fn decode_prefix() -> Seq<char> {
    "error parsing XML: "@
}

/// What a step of the search asks of the caller.
pub open spec fn action_of(step: StepView) -> ActionView {
    match step {
        StepView::Fetch { hour, url } => ActionView::Fetch { hour, url },
        StepView::Found { body } => ActionView::Decode { body },
        StepView::Failed { message } => ActionView::Respond(ReplyView::Failure(message)),
    }
}

/// The first action on a request with `method` at `hour`.
pub open spec fn accept_spec(method: Seq<char>, hour: int) -> ActionView {
    if is_read_spec(method) {
        action_of(start_spec(hour))
    } else {
        ActionView::Respond(ReplyView::NotFound)
    }
}

/// The action after an attempt to fetch the bulletin of `hour`.
pub open spec fn fetched_spec(hour: nat, outcome: FetchedView) -> ActionView {
    action_of(next_spec(hour, outcome))
}

/// The reply once the bulletin is decoded, or could not be.
pub open spec fn decoded_spec(outcome: Result<ContenitoreView, Seq<char>>) -> ReplyView {
    match outcome {
        Ok(contenitore) => ReplyView::Readings(extracted(contenitore.stazione.sensore)),
        Err(detail) => ReplyView::Failure(decode_prefix() + detail),
    }
}

/// How far an action is from the reply.
pub open spec fn distance(action: ActionView) -> nat {
    match action {
        ActionView::Fetch { hour, .. } => hour + 2,
        ActionView::Decode { .. } => 1,
        ActionView::Respond(_) => 0,
    }
}

/// The reply that a request comes to from `action` on, where the upstream
/// answers the attempt at each hour as `upstream` says and a bulletin decodes
/// as `decode` says.
pub open spec fn reply_from(
    action: ActionView,
    upstream: spec_fn(nat) -> FetchedView,
    decode: spec_fn(Seq<u8>) -> Result<ContenitoreView, Seq<char>>,
) -> ReplyView
    decreases distance(action),
{
    match action {
        ActionView::Fetch { hour, .. } => reply_from(
            fetched_spec(hour, upstream(hour)),
            upstream,
            decode,
        ),
        ActionView::Decode { body } => decoded_spec(decode(body)),
        ActionView::Respond(reply) => reply,
    }
}

/// The reply to a request with `method` that arrives at `hour`.
pub open spec fn served(
    method: Seq<char>,
    hour: int,
    upstream: spec_fn(nat) -> FetchedView,
    decode: spec_fn(Seq<u8>) -> Result<ContenitoreView, Seq<char>>,
) -> ReplyView {
    reply_from(accept_spec(method, hour), upstream, decode)
}

impl Reply {
    /// The status code to send with the reply.
    pub fn status(&self) -> (code: u16)
        ensures
            code == status_spec(self@),
    {
        match self {
            Reply::Readings(_) => 200,
            Reply::Failure(_) => 500,
            Reply::NotFound => 404,
        }
    }
}

/// Tells whether `method` is the one method that is served.
pub fn is_read_method(method: &str) -> (read: bool)
    ensures
        read == is_read_spec(method@),
{
    proof {
        reveal_strlit("GET");
    }
    if method.unicode_len() != 3 {
        return false;
    }
    let read = method.get_char(0) == 'G' && method.get_char(1) == 'E' && method.get_char(2) == 'T';
    proof {
        if read {
            assert(method@ =~= "GET"@);
        }
    }
    read
}

/// Turns a step of the search into the action it asks for.
fn act(step: Step) -> (action: Action)
    ensures
        action@ == action_of(step@),
{
    match step {
        Step::Fetch { hour, url } => Action::Fetch { hour, url },
        Step::Found { body } => Action::Decode { body },
        Step::Failed { message } => Action::Respond(Reply::Failure(message)),
    }
}

/// The first action on a request with `method` that arrives at `hour`.
pub fn accept_at(method: &str, hour: i8) -> (action: Action)
    ensures
        action@ == accept_spec(method@, hour as int),
{
    if is_read_method(method) {
        act(start(hour))
    } else {
        Action::Respond(Reply::NotFound)
    }
}

/// The first action on a request with `method` that arrives now.
///
/// The hour is that of the system clock in UTC, read only where the method is
/// served. Which hour that is cannot be said beforehand; whichever it is, the
/// action is the one [`accept_at`] gives for it.
pub fn accept(method: &str) -> (action: Action)
    ensures
        exists|hour: int| 0 <= hour < 24 && action@ == accept_spec(method@, hour),
{
    if is_read_method(method) {
        let hour = current_hour();
        let action = accept_at(method, hour as i8);
        assert(action@ == accept_spec(method@, hour as int));
        action
    } else {
        assert(ActionView::Respond(ReplyView::NotFound) == accept_spec(method@, 0));
        Action::Respond(Reply::NotFound)
    }
}

/// The action after an attempt to fetch the bulletin of `hour`.
pub fn fetched(hour: u8, outcome: Fetched) -> (action: Action)
    ensures
        action@ == fetched_spec(hour as nat, outcome@),
{
    act(next(hour, outcome))
}

/// The message of a bulletin that could not be decoded.
pub fn describe_undecoded(detail: &str) -> (message: String)
    ensures
        message@ == decode_prefix() + detail@,
{
    let mut message = String::from_str("error parsing XML: ");
    message.append(detail);
    message
}

/// The reply once the bulletin is decoded, or could not be.
pub fn decoded(outcome: Result<Contenitore, String>) -> (reply: Reply)
    ensures
        reply@ == decoded_spec(
            match outcome {
                Ok(contenitore) => Ok(contenitore@),
                Err(detail) => Err(detail@),
            },
        ),
{
    match outcome {
        Ok(contenitore) => Reply::Readings(extract(&contenitore)),
        Err(detail) => Reply::Failure(describe_undecoded(detail.as_str())),
    }
}

/// From a step of the search on, a request comes to what the search ends
/// with: the decoded bulletin's readings, or the failure's message.
pub proof fn lemma_reply_follows_resolution(
    step: StepView,
    upstream: spec_fn(nat) -> FetchedView,
    decode: spec_fn(Seq<u8>) -> Result<ContenitoreView, Seq<char>>,
)
    ensures
        reply_from(action_of(step), upstream, decode) == match resolution(upstream, step) {
            StepView::Found { body } => decoded_spec(decode(body)),
            StepView::Failed { message } => ReplyView::Failure(message),
            StepView::Fetch { hour, url } => reply_from(
                ActionView::Fetch { hour, url },
                upstream,
                decode,
            ),
        },
    decreases rank(step),
{
    match step {
        StepView::Fetch { hour, .. } => {
            lemma_reply_follows_resolution(next_spec(hour, upstream(hour)), upstream, decode);
        },
        _ => {},
    }
}

/// A request with any method but the served one is answered as not found,
/// with status 404, whatever the hour and whatever the upstream holds.
pub proof fn law_other_methods_not_found(
    method: Seq<char>,
    hour: int,
    upstream: spec_fn(nat) -> FetchedView,
    decode: spec_fn(Seq<u8>) -> Result<ContenitoreView, Seq<char>>,
)
    requires
        !is_read_spec(method),
    ensures
        served(method, hour, upstream, decode) == ReplyView::NotFound,
        status_spec(served(method, hour, upstream, decode)) == 404,
{
}

/// Where the upstream has the bulletin of `found` and nothing for the hours
/// after it up to the hour of the request, and the bulletin decodes, a read
/// request is answered with status 200 and the readings of that bulletin.
pub proof fn law_readings_of_most_recent_bulletin(
    hour: nat,
    found: nat,
    body: Seq<u8>,
    contenitore: ContenitoreView,
    upstream: spec_fn(nat) -> FetchedView,
    decode: spec_fn(Seq<u8>) -> Result<ContenitoreView, Seq<char>>,
)
    requires
        found <= hour,
        upstream(found) matches FetchedView::Answer { status, body: b } && status_is_success(status)
            && b == body,
        forall|h: nat| found < h <= hour ==> unpublished(upstream, h),
        decode(body) == Ok::<ContenitoreView, Seq<char>>(contenitore),
    ensures
        served("GET"@, hour as int, upstream, decode) == ReplyView::Readings(
            extracted(contenitore.stazione.sensore),
        ),
        status_spec(served("GET"@, hour as int, upstream, decode)) == 200,
{
    crate::resolver::law_most_recent_bulletin(upstream, hour, found, body);
    lemma_reply_follows_resolution(start_spec(hour as int), upstream, decode);
}

/// Where the upstream has published nothing for the hour of the request nor
/// for any hour before it, a read request is answered with status 500 and the
/// message of the exhausted search.
pub proof fn law_nothing_published_fails(
    hour: nat,
    upstream: spec_fn(nat) -> FetchedView,
    decode: spec_fn(Seq<u8>) -> Result<ContenitoreView, Seq<char>>,
)
    requires
        forall|h: nat| h <= hour ==> unpublished(upstream, h),
    ensures
        served("GET"@, hour as int, upstream, decode) == ReplyView::Failure(exhausted_message()),
        status_spec(served("GET"@, hour as int, upstream, decode)) == 500,
{
    crate::resolver::law_exhausted(upstream, hour);
    lemma_reply_follows_resolution(start_spec(hour as int), upstream, decode);
}

/// Success and failure exclude each other: a request is answered with
/// readings only where a bulletin was found and decoded, and then the
/// readings are exactly those of that bulletin.
pub proof fn law_no_partial_success(
    hour: int,
    upstream: spec_fn(nat) -> FetchedView,
    decode: spec_fn(Seq<u8>) -> Result<ContenitoreView, Seq<char>>,
)
    requires
        served("GET"@, hour, upstream, decode) is Readings,
    ensures
        resolution(upstream, start_spec(hour)) matches StepView::Found { body } && decode(body)
            matches Ok(contenitore) && served("GET"@, hour, upstream, decode)
            == ReplyView::Readings(extracted(contenitore.stazione.sensore)),
{
    lemma_reply_follows_resolution(start_spec(hour), upstream, decode);
    if hour >= 0 {
        crate::resolver::law_attempts_walk_back(upstream, hour as nat);
    }
}

} // verus!
