use crate::error::{lift_result, lifted, Error, ReqwasmResult, Result};
use reqwasm::Error as TransportError;
pub use reqwasm::http::{Request, Response};
use vstd::prelude::*;

verus! {

/// The body shape of an endpoint whose success response carries no body:
/// decoding into it never reads the wire.
#[derive(Copy, Clone)]
pub struct MissingBody;

/// Issues JSON requests on background tasks and hands each classified result
/// to a completion handler.
#[derive(Default)]
pub struct JsonFetcher;

/// What the caller wants from the body of a success response.
#[derive(Debug, Clone, Copy, PartialEq, Eq, Structural)]
pub enum BodyShape {
    /// No body is expected; nothing is read.
    Absent,
    /// The body is decoded as JSON.
    Json,
}

/// Where one fetch stands.
#[derive(Debug, Clone, Copy, PartialEq, Eq, Structural)]
pub enum FetchStage {
    /// The request is out; the transport has not answered yet.
    AwaitingResponse(BodyShape),
    /// Status 200 came back; the JSON body is being decoded.
    AwaitingBody,
    /// Another status came back; its body text is being captured.
    AwaitingText(u16),
    /// The result has been delivered.
    Finished,
}

/// What the task that runs a fetch reports back.
pub enum FetchEvent<B> {
    /// The transport failed before any status was known.
    TransportFailed(TransportError),
    /// The transport answered with this status.
    Responded(u16),
    /// The JSON decode of the body finished.
    BodyDecoded(ReqwasmResult<B>),
    /// The body text was read, or reading it failed.
    TextRead(ReqwasmResult<String>),
}

/// What the task that runs a fetch must do next.
pub enum FetchAction<B> {
    /// Decode the body as JSON and report `BodyDecoded`.
    ReadJson,
    /// Read the body as text and report `TextRead`.
    ReadText,
    /// Deliver the response together with this decode result.
    Succeed(Result<B>),
    /// Deliver the response with an absent body; nothing was read.
    SucceedWithoutBody,
    /// Deliver this failure.
    Fail(Error),
    /// The event does not belong to this stage: nothing to do.
    Ignore,
}

/// Only status 200 counts as success.
pub open spec fn is_success(status: u16) -> bool {
    status == 200
}

/// The pipeline's step relation: from `stage`, on `event`, the fetch moves to
/// `next` and asks for `action`.
pub open spec fn fetch_step<B>(stage: FetchStage, event: FetchEvent<B>, next: FetchStage, action: FetchAction<B>) -> bool {
    match (stage, event) {
        (FetchStage::AwaitingResponse(_), FetchEvent::TransportFailed(e)) =>
            next == FetchStage::Finished && action == FetchAction::<B>::Fail(Error::Reqwasm(e)),
        (FetchStage::AwaitingResponse(shape), FetchEvent::Responded(status)) =>
            if is_success(status) {
                match shape {
                    BodyShape::Absent => next == FetchStage::Finished && action == FetchAction::<B>::SucceedWithoutBody,
                    BodyShape::Json => next == FetchStage::AwaitingBody && action == FetchAction::<B>::ReadJson,
                }
            } else {
                next == FetchStage::AwaitingText(status) && action == FetchAction::<B>::ReadText
            },
        (FetchStage::AwaitingBody, FetchEvent::BodyDecoded(body)) =>
            next == FetchStage::Finished && action == FetchAction::Succeed(lifted(body)),
        (FetchStage::AwaitingText(status), FetchEvent::TextRead(text)) => {
            &&& next == FetchStage::Finished
            &&& action matches FetchAction::Fail(Error::FailureResponse(s, t))
            &&& s == status
            &&& (text is Ok ==> t == text->Ok_0)
        },
        _ => next == stage && action == FetchAction::<B>::Ignore,
    }
}

/// Relies on the `Debug` rendering of gloo-net's error (re-exported by
/// reqwasm), used as the body text when the text itself could not be read.
/// The rendering is derived, so it starts with the variant's name.
#[verifier::external_body]
fn debug_text(e: &TransportError) -> (r: String)
    ensures
        r@.len() > 0,
{
    format!("{:?}", e)
}

/// The best-effort body text of a failure response: the text when it was
/// read, else a rendering of why it could not be.
pub fn failure_text(text: ReqwasmResult<String>) -> (r: String)
    ensures
        text is Ok ==> r == text->Ok_0,
        text is Err ==> r@.len() > 0,
{
    match text {
        Ok(t) => t,
        Err(e) => debug_text(&e),
    }
}

/// The decision state of one fetch. The task that runs it performs the
/// actions it hands back and reports what came of them.
pub struct FetchMachine {
    pub stage: FetchStage,
}

impl FetchMachine {
    /// A fetch whose request has just been sent.
    pub fn new(shape: BodyShape) -> (r: FetchMachine)
        ensures
            r.stage == FetchStage::AwaitingResponse(shape),
    {
        FetchMachine { stage: FetchStage::AwaitingResponse(shape) }
    }

    /// Advances the fetch on `event`.
    pub fn step<B>(&mut self, event: FetchEvent<B>) -> (r: FetchAction<B>)
        ensures
            fetch_step(old(self).stage, event, final(self).stage, r),
    {
        match (self.stage, event) {
            (FetchStage::AwaitingResponse(_), FetchEvent::TransportFailed(e)) => {
                self.stage = FetchStage::Finished;
                FetchAction::Fail(Error::from(e))
            },
            (FetchStage::AwaitingResponse(shape), FetchEvent::Responded(status)) => {
                if status == 200 {
                    match shape {
                        BodyShape::Absent => {
                            self.stage = FetchStage::Finished;
                            FetchAction::SucceedWithoutBody
                        },
                        BodyShape::Json => {
                            self.stage = FetchStage::AwaitingBody;
                            FetchAction::ReadJson
                        },
                    }
                } else {
                    self.stage = FetchStage::AwaitingText(status);
                    FetchAction::ReadText
                }
            },
            (FetchStage::AwaitingBody, FetchEvent::BodyDecoded(body)) => {
                self.stage = FetchStage::Finished;
                FetchAction::Succeed(lift_result(body))
            },
            (FetchStage::AwaitingText(status), FetchEvent::TextRead(text)) => {
                self.stage = FetchStage::Finished;
                FetchAction::Fail(Error::FailureResponse(status, failure_text(text)))
            },
            _ => FetchAction::Ignore,
        }
    }

    /// Whether the result has been delivered.
    pub fn is_finished(&self) -> (r: bool)
        ensures
            r == (self.stage == FetchStage::Finished),
    {
        self.stage == FetchStage::Finished
    }
}

/// Status 200 yields success, whatever the body shape and whatever the decode
/// gives; any other status yields a failure response carrying that exact
/// status, whatever the capture of its text gives. `action` is what the
/// response asked for, `outcome` what was finally delivered.
pub proof fn lemma_status_decides_outcome<B>(
    shape: BodyShape,
    status: u16,
    next: FetchStage,
    action: FetchAction<B>,
    body: ReqwasmResult<B>,
    text: ReqwasmResult<String>,
    last: FetchStage,
    outcome: FetchAction<B>,
)
    requires
        fetch_step(FetchStage::AwaitingResponse(shape), FetchEvent::Responded(status), next, action),
        action is ReadJson ==> fetch_step(next, FetchEvent::BodyDecoded(body), last, outcome),
        action is ReadText ==> fetch_step(next, FetchEvent::TextRead(text), last, outcome),
        !(action is ReadJson || action is ReadText) ==> outcome == action && last == next,
    ensures
        last == FetchStage::Finished,
        status == 200 ==> (outcome is Succeed || outcome is SucceedWithoutBody),
        status != 200 ==> (outcome matches FetchAction::Fail(Error::FailureResponse(s, _)) && s == status),
{
}

/// With the body declared absent, the response never leads to a JSON decode,
/// and status 200 succeeds at once without reading anything.
pub proof fn lemma_absent_body_never_read<B>(status: u16, next: FetchStage, action: FetchAction<B>)
    requires
        fetch_step(FetchStage::AwaitingResponse(BodyShape::Absent), FetchEvent::Responded(status), next, action),
    ensures
        !(action is ReadJson),
        status == 200 ==> action is SucceedWithoutBody && next == FetchStage::Finished,
{
}

/// A fetch delivers its result once: the step that delivers leaves it
/// finished, and a finished fetch ignores every later event, so its
/// classification is never revisited.
pub proof fn lemma_delivered_once<B>(
    stage: FetchStage,
    event: FetchEvent<B>,
    next: FetchStage,
    action: FetchAction<B>,
    later: FetchEvent<B>,
    after: FetchStage,
    again: FetchAction<B>,
)
    requires
        fetch_step(stage, event, next, action),
        action is Succeed || action is SucceedWithoutBody || action is Fail,
        fetch_step(next, later, after, again),
    ensures
        next == FetchStage::Finished,
        after == FetchStage::Finished,
        again is Ignore,
{
}

} // verus!
