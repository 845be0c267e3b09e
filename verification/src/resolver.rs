//! The search for the most recent bulletin of the day.
//!
//! Bulletins appear once per hour, and the one of the current hour may not
//! exist yet. The search asks for the bulletin of the current hour and walks
//! back one hour at a time while the upstream answers with a status outside
//! the success class. It never wraps into the previous day. A failure of the
//! transport ends the search at once.
//!
//! The search performs no traffic itself. [`start`] and [`next`] say what to
//! do; the caller fetches and reports what came of it.

use crate::decimal::{padded2, push_padded2};
use vstd::prelude::*;
use vstd::string::StringExecFns;

verus! {

/// The point at which an attempt broke before the upstream's answer was complete.
#[derive(Clone, Copy, Debug, PartialEq, Eq, Structural)]
pub enum Stage {
    /// The address of the bulletin could not be formed.
    Url,
    /// No answer arrived.
    Response,
    /// The answer's body could not be read to its end.
    Body,
}

/// What came of one attempt to fetch a bulletin.
#[derive(Clone, Debug, PartialEq, Eq)]
pub enum Fetched {
    /// The upstream answered. `body` is the whole body where the status is in
    /// the success class, and is not looked at otherwise.
    Answer { status: u16, body: Vec<u8> },
    /// The transport failed; `detail` describes how.
    Broken { stage: Stage, detail: String },
}

/// What the search asks for or ends with.
#[derive(Clone, Debug, PartialEq, Eq)]
pub enum Step {
    /// Fetch the bulletin of `hour` from `url` and report with [`next`].
    Fetch { hour: u8, url: String },
    /// The search ended with the bulletin in `body`.
    Found { body: Vec<u8> },
    /// The search ended without a bulletin.
    Failed { message: String },
}

/// Mathematical content of a [`Fetched`].
pub enum FetchedView {
    Answer { status: u16, body: Seq<u8> },
    Broken { stage: Stage, detail: Seq<char> },
}

/// Mathematical content of a [`Step`].
pub enum StepView {
    Fetch { hour: nat, url: Seq<char> },
    Found { body: Seq<u8> },
    Failed { message: Seq<char> },
}

impl View for Fetched {
    type V = FetchedView;

    open spec fn view(&self) -> FetchedView {
        match *self {
            Fetched::Answer { status, body } => FetchedView::Answer { status, body: body@ },
            Fetched::Broken { stage, detail } => FetchedView::Broken { stage, detail: detail@ },
        }
    }
}

impl View for Step {
    type V = StepView;

    open spec fn view(&self) -> StepView {
        match *self {
            Step::Fetch { hour, url } => StepView::Fetch { hour: hour as nat, url: url@ },
            Step::Found { body } => StepView::Found { body: body@ },
            Step::Failed { message } => StepView::Failed { message: message@ },
        }
    }
}

/// The success class of status codes: 200 to 299.
pub open spec fn status_is_success(status: u16) -> bool {
    200 <= status < 300
}

/// The address of the bulletin of an hour: the hour stands in it with two
/// digits, a leading zero where needed.
pub open spec fn url_spec(hour: nat) -> Seq<char> {
    "http://www.arpa.veneto.it/bollettini/meteo/h24/img"@ + padded2(hour) + "/0182.xml"@
}

/// The message of a search that found no bulletin down to hour 0.
pub open spec fn exhausted_message() -> Seq<char> {
    "no measurements found for today"@
}

/// How the message of a transport failure begins.
pub open spec fn stage_prefix(stage: Stage) -> Seq<char> {
    match stage {
        Stage::Url => "error parsing URL: "@,
        Stage::Response => "error getting response: "@,
        Stage::Body => "error concatting Body: "@,
    }
}

/// The message of a transport failure.
pub open spec fn broken_message(stage: Stage, detail: Seq<char>) -> Seq<char> {
    stage_prefix(stage) + detail
}

/// The first step of a search that starts at `hour`.
pub open spec fn start_spec(hour: int) -> StepView {
    if hour < 0 {
        StepView::Failed { message: exhausted_message() }
    } else {
        StepView::Fetch { hour: hour as nat, url: url_spec(hour as nat) }
    }
}

/// The step that follows an attempt at `hour`.
pub open spec fn next_spec(hour: nat, fetched: FetchedView) -> StepView {
    match fetched {
        FetchedView::Answer { status, body } => if status_is_success(status) {
            StepView::Found { body }
        } else {
            start_spec(hour - 1)
        },
        FetchedView::Broken { stage, detail } => StepView::Failed {
            message: broken_message(stage, detail),
        },
    }
}

/// Tells whether a status code is in the success class.
pub fn is_success(status: u16) -> (ok: bool)
    ensures
        ok == status_is_success(status),
{
    200 <= status && status < 300
}

/// The address of the bulletin of `hour`.
pub fn bulletin_url(hour: u8) -> (url: String)
    ensures
        url@ == url_spec(hour as nat),
{
    let mut url = String::from_str("http://www.arpa.veneto.it/bollettini/meteo/h24/img");
    push_padded2(&mut url, hour);
    url.append("/0182.xml");
    url
}

/// The message of a transport failure.
pub fn describe_broken(stage: Stage, detail: &str) -> (message: String)
    ensures
        message@ == broken_message(stage, detail@),
{
    let mut message = match stage {
        Stage::Url => String::from_str("error parsing URL: "),
        Stage::Response => String::from_str("error getting response: "),
        Stage::Body => String::from_str("error concatting Body: "),
    };
    message.append(detail);
    message
}

/// Begins a search at `hour`. A negative hour leaves nothing to ask for.
pub fn start(hour: i8) -> (step: Step)
    ensures
        step@ == start_spec(hour as int),
{
    if hour < 0 {
        Step::Failed { message: String::from_str("no measurements found for today") }
    } else {
        let hour = hour as u8;
        Step::Fetch { hour, url: bulletin_url(hour) }
    }
}

/// Continues a search after the attempt at `hour`.
///
/// A status in the success class ends the search with the body. Any other
/// status moves the search to the hour before, and ends it where `hour` is 0.
/// A transport failure ends it with a message that names the failure.
pub fn next(hour: u8, fetched: Fetched) -> (step: Step)
    ensures
        step@ == next_spec(hour as nat, fetched@),
{
    match fetched {
        Fetched::Answer { status, body } => {
            if is_success(status) {
                Step::Found { body }
            } else if hour == 0 {
                Step::Failed { message: String::from_str("no measurements found for today") }
            } else {
                let before = hour - 1;
                Step::Fetch { hour: before, url: bulletin_url(before) }
            }
        },
        Fetched::Broken { stage, detail } => Step::Failed {
            message: describe_broken(stage, detail.as_str()),
        },
    }
}

/// How far a step is from the end of its search.
pub open spec fn rank(step: StepView) -> nat {
    match step {
        StepView::Fetch { hour, .. } => hour + 1,
        _ => 0,
    }
}

/// The step with which a search ends that stands at `step`, before an
/// upstream that answers the attempt at each hour as `upstream` says.
pub open spec fn resolution(upstream: spec_fn(nat) -> FetchedView, step: StepView) -> StepView
    decreases rank(step),
{
    match step {
        StepView::Fetch { hour, .. } => resolution(upstream, next_spec(hour, upstream(hour))),
        _ => step,
    }
}

/// The hours that such a search asks for, in the order of the attempts.
pub open spec fn attempts(upstream: spec_fn(nat) -> FetchedView, step: StepView) -> Seq<nat>
    decreases rank(step),
{
    match step {
        StepView::Fetch { hour, .. } => seq![hour] + attempts(
            upstream,
            next_spec(hour, upstream(hour)),
        ),
        _ => Seq::empty(),
    }
}

/// The upstream has published nothing for `hour`: it answers with a status
/// outside the success class.
pub open spec fn unpublished(upstream: spec_fn(nat) -> FetchedView, hour: nat) -> bool {
    upstream(hour) matches FetchedView::Answer { status, .. } && !status_is_success(status)
}

/// Where the upstream has the bulletin of the starting hour, the search ends
/// with that bulletin after one attempt, and asks for no earlier hour.
pub proof fn law_success_at_start(upstream: spec_fn(nat) -> FetchedView, hour: nat, body: Seq<u8>)
    requires
        upstream(hour) matches FetchedView::Answer { status, body: b } && status_is_success(status)
            && b == body,
    ensures
        resolution(upstream, start_spec(hour as int)) == (StepView::Found { body }),
        attempts(upstream, start_spec(hour as int)) == seq![hour],
        forall|i: int|
            0 <= i < attempts(upstream, start_spec(hour as int)).len() ==> attempts(
                upstream,
                start_spec(hour as int),
            )[i] >= hour,
{
    let first = start_spec(hour as int);
    let after = next_spec(hour, upstream(hour));
    assert(after == StepView::Found { body });
    assert(resolution(upstream, after) == after);
    assert(attempts(upstream, after) == Seq::<nat>::empty());
    assert(resolution(upstream, first) == resolution(upstream, after));
    assert(attempts(upstream, first) =~= seq![hour]);
}

/// Where the upstream has published nothing for the starting hour nor for any
/// hour before it, the search fails as exhausted after one attempt per hour,
/// from the starting hour down to 0.
pub proof fn law_exhausted(upstream: spec_fn(nat) -> FetchedView, hour: nat)
    requires
        forall|h: nat| h <= hour ==> unpublished(upstream, h),
    ensures
        resolution(upstream, start_spec(hour as int)) == (StepView::Failed {
            message: exhausted_message(),
        }),
        attempts(upstream, start_spec(hour as int)).len() == hour + 1,
        forall|i: int|
            0 <= i <= hour ==> attempts(upstream, start_spec(hour as int))[i] == hour - i,
    decreases hour,
{
    let first = start_spec(hour as int);
    let after = next_spec(hour, upstream(hour));
    assert(unpublished(upstream, hour));
    assert(after == start_spec(hour - 1));
    assert(resolution(upstream, first) == resolution(upstream, after));
    assert(attempts(upstream, first) == seq![hour] + attempts(upstream, after));
    if hour == 0 {
        assert(attempts(upstream, after) == Seq::<nat>::empty());
    } else {
        let before = (hour - 1) as nat;
        assert forall|h: nat| h <= before implies unpublished(upstream, h) by {
            assert(unpublished(upstream, h));
        }
        law_exhausted(upstream, before);
    }
}

/// The search ends with the most recent bulletin of the day: where the
/// upstream has the bulletin of `found` and has published nothing for the
/// hours after it up to the starting hour, the search ends with that bulletin
/// after one attempt per hour from the starting hour down to `found`.
pub proof fn law_most_recent_bulletin(
    upstream: spec_fn(nat) -> FetchedView,
    hour: nat,
    found: nat,
    body: Seq<u8>,
)
    requires
        found <= hour,
        upstream(found) matches FetchedView::Answer { status, body: b } && status_is_success(status)
            && b == body,
        forall|h: nat| found < h <= hour ==> unpublished(upstream, h),
    ensures
        resolution(upstream, start_spec(hour as int)) == (StepView::Found { body }),
        attempts(upstream, start_spec(hour as int)).len() == hour - found + 1,
        forall|i: int|
            0 <= i <= hour - found ==> attempts(upstream, start_spec(hour as int))[i] == hour - i,
    decreases hour,
{
    if found == hour {
        law_success_at_start(upstream, hour, body);
    } else {
        let first = start_spec(hour as int);
        let after = next_spec(hour, upstream(hour));
        assert(unpublished(upstream, hour));
        assert(after == start_spec(hour - 1));
        assert(resolution(upstream, first) == resolution(upstream, after));
        assert(attempts(upstream, first) == seq![hour] + attempts(upstream, after));
        let before = (hour - 1) as nat;
        assert forall|h: nat| found < h <= before implies unpublished(upstream, h) by {
            assert(unpublished(upstream, h));
        }
        law_most_recent_bulletin(upstream, before, found, body);
    }
}

/// A transport failure is final: where the attempt at `broken` fails in the
/// transport and nothing was published for the hours after it, the search
/// ends with the failure's message and asks for no hour before `broken`.
pub proof fn law_transport_failure_is_final(
    upstream: spec_fn(nat) -> FetchedView,
    hour: nat,
    broken: nat,
    stage: Stage,
    detail: Seq<char>,
)
    requires
        broken <= hour,
        upstream(broken) == (FetchedView::Broken { stage, detail }),
        forall|h: nat| broken < h <= hour ==> unpublished(upstream, h),
    ensures
        resolution(upstream, start_spec(hour as int)) == (StepView::Failed {
            message: broken_message(stage, detail),
        }),
        attempts(upstream, start_spec(hour as int)).len() == hour - broken + 1,
        forall|i: int|
            0 <= i <= hour - broken ==> attempts(upstream, start_spec(hour as int))[i] == hour
                - i,
    decreases hour,
{
    let first = start_spec(hour as int);
    let after = next_spec(hour, upstream(hour));
    assert(resolution(upstream, first) == resolution(upstream, after));
    assert(attempts(upstream, first) == seq![hour] + attempts(upstream, after));
    if broken == hour {
        assert(attempts(upstream, after) == Seq::<nat>::empty());
    } else {
        assert(unpublished(upstream, hour));
        assert(after == start_spec(hour - 1));
        let before = (hour - 1) as nat;
        assert forall|h: nat| broken < h <= before implies unpublished(upstream, h) by {
            assert(unpublished(upstream, h));
        }
        law_transport_failure_is_final(upstream, before, broken, stage, detail);
    }
}

/// Whatever the upstream does, a search makes at most one attempt per hour
/// from the starting hour down to 0, each one hour before the last, and ends.
pub proof fn law_attempts_walk_back(upstream: spec_fn(nat) -> FetchedView, hour: nat)
    ensures
        1 <= attempts(upstream, start_spec(hour as int)).len() <= hour + 1,
        forall|i: int|
            0 <= i < attempts(upstream, start_spec(hour as int)).len() ==> attempts(
                upstream,
                start_spec(hour as int),
            )[i] == hour - i,
        !(resolution(upstream, start_spec(hour as int)) is Fetch),
    decreases hour,
{
    let first = start_spec(hour as int);
    let after = next_spec(hour, upstream(hour));
    assert(resolution(upstream, first) == resolution(upstream, after));
    assert(attempts(upstream, first) == seq![hour] + attempts(upstream, after));
    if after is Fetch {
        assert(after == start_spec(hour - 1));
        law_attempts_walk_back(upstream, (hour - 1) as nat);
    } else {
        assert(attempts(upstream, after) == Seq::<nat>::empty());
    }
}

} // verus!
