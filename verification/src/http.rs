//! The response pipeline: status validation, body accumulation, parsing.

use std::marker::PhantomData;

use vstd::prelude::*;

use crate::error::{ApiError, ParseError, TransportError};

verus! {

/// A raw response as the pipeline sees it: the status line and the headers.
/// The body source stays with the driver, which reads it only when the
/// pipeline asks for it.
#[derive(Debug, Clone, PartialEq, Eq)]
pub struct Response {
    /// The numeric status code.
    pub status: u16,
    /// The header fields, names and values, in the order of arrival.
    pub headers: Vec<(String, String)>,
}

/// `hyper::StatusCode::from_u16` and, on a code that it accepts,
/// `hyper::StatusCode::is_success`.
///
/// Trusted: `from_u16` accepts the codes from 100 to 599 and no others, and
/// `is_success` holds of exactly the accepted codes from 200 to 299.
#[verifier::external_body]
fn success_class(code: u16) -> (class: Option<bool>)
    ensures
        class == (if 100 <= code && code < 600 {
            Some(200 <= code && code < 300)
        } else {
            None::<bool>
        }),
{
    match hyper::StatusCode::from_u16(code) {
        Ok(status) => Some(status.is_success()),
        Err(_) => None,
    }
}

impl Response {
    /// Whether the status code lies in the success class, 200 to 299.
    /// Everything else, redirections included, counts as a failure.
    pub open spec fn succeeded(&self) -> bool {
        200 <= self.status && self.status < 300
    }

    /// Whether the status code lies in the success class.
    pub fn is_success(&self) -> (ok: bool)
        ensures
            ok == self.succeeded(),
    {
        match success_class(self.status) {
            Some(ok) => ok,
            None => false,
        }
    }
}

/// What the driver reports to the pipeline after it has polled the transport.
#[derive(Debug, Clone, PartialEq, Eq)]
pub enum Event {
    /// The source that was polled has nothing yet.
    NotReady,
    /// The source that was polled failed.
    Failed(TransportError),
    /// The in-flight request completed with this response.
    Response(Response),
    /// The body source yielded one more chunk.
    Chunk(Vec<u8>),
    /// The body source is exhausted.
    End,
}

/// What the pipeline answers to one event.
#[derive(Debug, Clone, PartialEq, Eq)]
pub enum Step<T> {
    /// Nothing to do until the transport has news: suspend.
    Pending,
    /// No outcome yet and no reason to suspend: poll the source that the
    /// current stage names again, within the same progress step.
    Continue,
    /// The outcome is a value.
    Ready(T),
    /// The outcome is a failure.
    Failed(ApiError),
    /// The outcome was delivered before: nothing is read and nothing is
    /// delivered again.
    Finished,
}

impl<T> Step<T> {
    /// Whether this step delivers the outcome, a value or a failure.
    pub open spec fn is_outcome(self) -> bool {
        self is Ready || self is Failed
    }
}

/// Where a typed result stands, which is also what its driver has to poll:
/// the in-flight request, the body source, or nothing any more.
#[derive(Debug, Clone, Copy, PartialEq, Eq, Structural)]
pub enum Stage {
    /// The response has not arrived yet.
    AwaitingResponse,
    /// The response passed the guard and its body is being accumulated.
    AwaitingBody,
    /// The outcome was delivered.
    Done,
}

impl Stage {
    /// The position of the stage in the only order in which stages are
    /// passed through.
    pub open spec fn rank(self) -> nat {
        match self {
            Stage::AwaitingResponse => 0,
            Stage::AwaitingBody => 1,
            Stage::Done => 2,
        }
    }
}

/// Something that can be converted from a complete body.
pub trait ParseBody: Sized {
    /// Parse the value from the body.
    fn parse_body(body: &[u8]) -> Result<Self, ParseError>;
}

/// Whether the parser of `T`, handed exactly the bytes `body`, may give the
/// answer `value`. Nothing is assumed of a parser: whatever it answers, the
/// pipeline delivers.
pub open spec fn may_parse<T: ParseBody>(body: Seq<u8>, value: Result<T, ParseError>) -> bool {
    exists|bytes: &[u8]| #[trigger] call_ensures(T::parse_body, (bytes,), value) && bytes@ == body
}

impl<T: ParseBody> Step<T> {
    /// The outcome that delivers the answer of the parser: the value, or
    /// the parse failure.
    pub open spec fn of_parsed(value: Result<T, ParseError>) -> Step<T> {
        match value {
            Ok(parsed) => Step::Ready(parsed),
            Err(error) => Step::Failed(ApiError::ParseFailure(error)),
        }
    }

    /// Whether this step delivers an answer that the parser of `T` may give
    /// to the bytes `body`.
    pub open spec fn concludes(self, body: Seq<u8>) -> bool {
        exists|value: Result<T, ParseError>| #[trigger]
            may_parse::<T>(body, value) && self == Self::of_parsed(value)
    }

    /// Whether this step is the typed form of a step of the pipeline: the
    /// same step, but that in place of a complete body it delivers what the
    /// parser answered to that body.
    pub open spec fn answers(self, step: Step<Seq<u8>>) -> bool {
        match step {
            Step::Pending => self == Step::<T>::Pending,
            Step::Continue => self == Step::<T>::Continue,
            Step::Ready(body) => self.concludes(body),
            Step::Failed(error) => self == Step::<T>::Failed(error),
            Step::Finished => self == Step::<T>::Finished,
        }
    }

    /// The outcome that delivers the answer of the parser.
    pub fn from_parsed(value: Result<T, ParseError>) -> (step: Step<T>)
        ensures
            step == Self::of_parsed(value),
    {
        match value {
            Ok(parsed) => Step::Ready(parsed),
            Err(error) => Step::Failed(ApiError::ParseFailure(error)),
        }
    }
}

/// The response guard: lets a response with a success status through and
/// turns every other one into a failure, before any of the body is read.
#[derive(Debug)]
pub struct ApiResponse {
    resolved: bool,
}

impl ApiResponse {
    /// Whether the guard has given its answer.
    pub closed spec fn resolved(&self) -> bool {
        self.resolved
    }

    /// What an unresolved guard answers to an event.
    pub open spec fn verdict(event: Event) -> Step<Response> {
        match event {
            Event::NotReady => Step::Pending,
            Event::Failed(cause) => Step::Failed(ApiError::TransportFailure(cause)),
            Event::Response(response) => if response.succeeded() {
                Step::Ready(response)
            } else {
                Step::Failed(ApiError::StatusFailure { code: response.status, response })
            },
            Event::Chunk(_) => Step::Continue,
            Event::End => Step::Continue,
        }
    }

    /// A guard for a request that has just been sent.
    pub fn new() -> (guard: ApiResponse)
        ensures
            !guard.resolved(),
    {
        ApiResponse { resolved: false }
    }

    /// Whether the guard has given its answer.
    pub fn is_resolved(&self) -> (resolved: bool)
        ensures
            resolved == self.resolved(),
    {
        self.resolved
    }

    /// One progress step. An unresolved guard answers by
    /// [`ApiResponse::verdict`] and is resolved exactly when that answer is
    /// an outcome. A resolved guard answers [`Step::Finished`].
    pub fn poll(&mut self, event: Event) -> (step: Step<Response>)
        ensures
            old(self).resolved() ==> step == Step::<Response>::Finished && final(self).resolved(),
            !old(self).resolved() ==> step == Self::verdict(event) && final(self).resolved()
                == step.is_outcome(),
    {
        if self.resolved {
            return Step::Finished;
        }
        match event {
            Event::NotReady => Step::Pending,
            Event::Failed(cause) => {
                self.resolved = true;
                Step::Failed(ApiError::TransportFailure(cause))
            },
            Event::Response(response) => {
                self.resolved = true;
                if response.is_success() {
                    Step::Ready(response)
                } else {
                    Step::Failed(ApiError::StatusFailure { code: response.status, response })
                }
            },
            Event::Chunk(_) => Step::Continue,
            Event::End => Step::Continue,
        }
    }
}

/// The state of a typed result as contracts speak of it.
pub ghost struct Pipeline {
    /// Where the result stands.
    pub stage: Stage,
    /// The bytes of the body accumulated so far, in the order of arrival.
    /// Empty while no body is being accumulated.
    pub buffer: Seq<u8>,
}

impl Pipeline {
    /// The state at construction: the response is awaited.
    pub open spec fn start() -> Pipeline {
        Pipeline { stage: Stage::AwaitingResponse, buffer: Seq::empty() }
    }

    /// The state in which the body is accumulated, with nothing read yet.
    pub open spec fn body_begun() -> Pipeline {
        Pipeline { stage: Stage::AwaitingBody, buffer: Seq::empty() }
    }

    /// The state after the outcome: the buffer is gone.
    pub open spec fn finished() -> Pipeline {
        Pipeline { stage: Stage::Done, buffer: Seq::empty() }
    }

    /// The state after one event, and the answer to that event.
    ///
    /// While the response is awaited the guard decides: a response that it
    /// lets through starts the accumulation, a failure ends the pipeline.
    /// While the body is awaited each chunk is appended to the buffer, and
    /// the end of the body delivers the whole buffer, which is what the
    /// parser is handed. An event that the stage did not ask for changes
    /// nothing, and after the outcome no event changes anything.
    pub open spec fn next(self, event: Event) -> (Pipeline, Step<Seq<u8>>) {
        match self.stage {
            Stage::AwaitingResponse => match event {
                Event::NotReady => (self, Step::Pending),
                Event::Failed(cause) => (
                    Pipeline::finished(),
                    Step::Failed(ApiError::TransportFailure(cause)),
                ),
                Event::Response(response) => if response.succeeded() {
                    (Pipeline::body_begun(), Step::Continue)
                } else {
                    (
                        Pipeline::finished(),
                        Step::Failed(ApiError::StatusFailure { code: response.status, response }),
                    )
                },
                Event::Chunk(_) => (self, Step::Continue),
                Event::End => (self, Step::Continue),
            },
            Stage::AwaitingBody => match event {
                Event::NotReady => (self, Step::Pending),
                Event::Failed(cause) => (
                    Pipeline::finished(),
                    Step::Failed(ApiError::TransportFailure(cause)),
                ),
                Event::Response(_) => (self, Step::Continue),
                Event::Chunk(chunk) => (
                    Pipeline { stage: Stage::AwaitingBody, buffer: self.buffer + chunk@ },
                    Step::Continue,
                ),
                Event::End => (Pipeline::finished(), Step::Ready(self.buffer)),
            },
            Stage::Done => (self, Step::Finished),
        }
    }

    /// The state after a sequence of events, taken in order.
    pub open spec fn after(self, events: Seq<Event>) -> Pipeline
        decreases events.len(),
    {
        if events.len() == 0 {
            self
        } else {
            self.after(events.drop_last()).next(events.last()).0
        }
    }

    /// The answer to the last of a sequence of events, taken in order.
    pub open spec fn answer(self, events: Seq<Event>) -> Step<Seq<u8>>
        recommends
            events.len() > 0,
    {
        self.after(events.drop_last()).next(events.last()).1
    }

    /// The events that report the given chunks, one event each.
    pub open spec fn chunk_events(chunks: Seq<Vec<u8>>) -> Seq<Event> {
        Seq::new(chunks.len(), |i: int| Event::Chunk(chunks[i]))
    }

    /// The bytes of the given chunks, one chunk after the other.
    pub open spec fn joined(chunks: Seq<Vec<u8>>) -> Seq<u8>
        decreases chunks.len(),
    {
        if chunks.len() == 0 {
            Seq::empty()
        } else {
            Self::joined(chunks.drop_last()) + chunks.last()@
        }
    }
}

/// Result of an API call: the typed value that the body of the response
/// parses to, or the failure that came first.
#[derive(Debug)]
pub struct ApiResult<T> {
    inner: ApiResponse,
    body: Option<Vec<u8>>,
    _marker: PhantomData<T>,
}

impl<T> View for ApiResult<T> {
    type V = Pipeline;

    closed spec fn view(&self) -> Pipeline {
        if !self.inner.resolved() {
            Pipeline::start()
        } else {
            match self.body {
                Some(buffer) => Pipeline { stage: Stage::AwaitingBody, buffer: buffer@ },
                None => Pipeline::finished(),
            }
        }
    }
}

impl<T> ApiResult<T> {
    /// New result from a response. It awaits the response, unless the guard
    /// has given its answer elsewhere: then nothing is left to deliver.
    pub fn new(response: ApiResponse) -> (result: ApiResult<T>)
        ensures
            result@ == (if response.resolved() {
                Pipeline::finished()
            } else {
                Pipeline::start()
            }),
    {
        ApiResult { inner: response, body: None, _marker: PhantomData }
    }

    /// Where the result stands, and so what the driver has to poll next.
    pub fn stage(&self) -> (stage: Stage)
        ensures
            stage == self@.stage,
    {
        if !self.inner.is_resolved() {
            Stage::AwaitingResponse
        } else if self.body.is_some() {
            Stage::AwaitingBody
        } else {
            Stage::Done
        }
    }
}

impl<T: ParseBody> ApiResult<T> {
    /// One progress step: takes what the driver got from the source that
    /// [`ApiResult::stage`] names, moves on as [`Pipeline::next`] says and
    /// answers with the typed form of its step. The parser runs only where
    /// that step delivers the complete body, and on exactly that body.
    pub fn poll(&mut self, event: Event) -> (step: Step<T>)
        ensures
            final(self)@ == old(self)@.next(event).0,
            step.answers(old(self)@.next(event).1),
    {
        if !self.inner.is_resolved() {
            match self.inner.poll(event) {
                Step::Ready(_) => {
                    self.body = Some(Vec::new());
                    Step::Continue
                },
                Step::Failed(error) => {
                    self.body = None;
                    Step::Failed(error)
                },
                Step::Pending => Step::Pending,
                Step::Continue => Step::Continue,
                Step::Finished => {
                    assert(false);
                    Step::Finished
                },
            }
        } else {
            match self.body.take() {
                None => Step::Finished,
                Some(mut buffer) => match event {
                    Event::NotReady => {
                        self.body = Some(buffer);
                        Step::Pending
                    },
                    Event::Failed(cause) => Step::Failed(ApiError::TransportFailure(cause)),
                    Event::Response(_) => {
                        self.body = Some(buffer);
                        Step::Continue
                    },
                    Event::Chunk(mut chunk) => {
                        buffer.append(&mut chunk);
                        self.body = Some(buffer);
                        Step::Continue
                    },
                    Event::End => {
                        let value = T::parse_body(buffer.as_slice());
                        assert(may_parse::<T>(buffer@, value));
                        Step::from_parsed(value)
                    },
                },
            }
        }
    }
}

/// A source that is not ready changes nothing, so asking again is safe: the
/// answer is to suspend, or `Finished` after the outcome.
pub proof fn lemma_not_ready_changes_nothing(pipeline: Pipeline)
    ensures
        pipeline.next(Event::NotReady).0 == pipeline,
        pipeline.next(Event::NotReady).1 == (if pipeline.stage == Stage::Done {
            Step::<Seq<u8>>::Finished
        } else {
            Step::<Seq<u8>>::Pending
        }),
{
}

/// No step leads back to an earlier stage.
pub proof fn lemma_stage_never_goes_back(pipeline: Pipeline, event: Event)
    ensures
        pipeline.next(event).0.stage.rank() >= pipeline.stage.rank(),
{
}

/// An outcome is delivered by exactly the steps that end the pipeline.
pub proof fn lemma_outcome_ends_pipeline(pipeline: Pipeline, event: Event)
    ensures
        pipeline.next(event).1.is_outcome() <==> (pipeline.stage != Stage::Done
            && pipeline.next(event).0.stage == Stage::Done),
{
}

/// Taking two sequences of events one after the other is taking their
/// concatenation.
pub proof fn lemma_after_concat(pipeline: Pipeline, first: Seq<Event>, rest: Seq<Event>)
    ensures
        pipeline.after(first + rest) == pipeline.after(first).after(rest),
    decreases rest.len(),
{
    if rest.len() == 0 {
        assert(first + rest =~= first);
    } else {
        assert((first + rest).drop_last() =~= first + rest.drop_last());
        assert((first + rest).last() == rest.last());
        lemma_after_concat(pipeline, first, rest.drop_last());
    }
}

/// Over any sequence of events the stage only advances.
pub proof fn lemma_stages_only_advance(pipeline: Pipeline, events: Seq<Event>)
    ensures
        pipeline.after(events).stage.rank() >= pipeline.stage.rank(),
    decreases events.len(),
{
    if events.len() > 0 {
        lemma_stages_only_advance(pipeline, events.drop_last());
        lemma_stage_never_goes_back(pipeline.after(events.drop_last()), events.last());
    }
}

/// After the outcome nothing changes any more, whatever events arrive.
pub proof fn lemma_done_stays_done(pipeline: Pipeline, events: Seq<Event>)
    requires
        pipeline.stage == Stage::Done,
    ensures
        pipeline.after(events) == pipeline,
    decreases events.len(),
{
    if events.len() > 0 {
        lemma_done_stays_done(pipeline, events.drop_last());
    }
}

/// The outcome is delivered at most once, and the transport is never read
/// again after it: once a step has delivered the outcome, every later step
/// answers `Finished`, which asks for nothing, and leaves the state as the
/// outcome left it.
pub proof fn lemma_nothing_after_outcome(
    pipeline: Pipeline,
    before: Seq<Event>,
    later: Seq<Event>,
)
    requires
        before.len() > 0,
        pipeline.answer(before).is_outcome(),
        later.len() > 0,
    ensures
        pipeline.after(before).stage == Stage::Done,
        pipeline.after(before + later) == pipeline.after(before),
        pipeline.answer(before + later) == Step::<Seq<u8>>::Finished,
{
    lemma_outcome_ends_pipeline(pipeline.after(before.drop_last()), before.last());
    let done = pipeline.after(before);
    lemma_after_concat(pipeline, before, later);
    lemma_done_stays_done(done, later);
    assert((before + later).drop_last() =~= before + later.drop_last());
    lemma_after_concat(pipeline, before, later.drop_last());
    lemma_done_stays_done(done, later.drop_last());
}

/// The body is delivered, and so the parser is run, by exactly one kind of
/// step: the end of the body while the body is awaited. What is delivered
/// is the whole buffer, never a part of it.
pub proof fn lemma_body_delivered_only_at_end(pipeline: Pipeline, event: Event)
    ensures
        pipeline.next(event).1 is Ready <==> (pipeline.stage == Stage::AwaitingBody
            && event is End),
        pipeline.next(event).1 is Ready ==> pipeline.next(event).1 == Step::Ready(
            pipeline.buffer,
        ),
{
}

/// Status validation comes strictly before accumulation: while the response
/// is awaited, chunks and the end of a body are not taken in, however many
/// arrive.
pub proof fn lemma_body_waits_for_status(chunks: Seq<Vec<u8>>)
    ensures
        Pipeline::start().after(Pipeline::chunk_events(chunks)) == Pipeline::start(),
        Pipeline::start().after(Pipeline::chunk_events(chunks) + seq![Event::End])
            == Pipeline::start(),
    decreases chunks.len(),
{
    let events = Pipeline::chunk_events(chunks);
    if chunks.len() > 0 {
        lemma_body_waits_for_status(chunks.drop_last());
        assert(events.drop_last() =~= Pipeline::chunk_events(chunks.drop_last()));
        assert(events.last() == Event::Chunk(chunks.last()));
    }
    assert((events + seq![Event::End]).drop_last() =~= events);
    assert((events + seq![Event::End]).last() == Event::End);
}

/// A status outside the success class ends the pipeline at once with a
/// status failure that carries the code and the response. No body is ever
/// asked for, and no body is ever handed to a parser, whatever the
/// transport would have delivered afterwards.
pub proof fn lemma_refused_status_ends_pipeline(response: Response, later: Seq<Event>)
    requires
        !response.succeeded(),
        later.len() > 0,
    ensures
        Pipeline::start().next(Event::Response(response)) == (
            Pipeline::finished(),
            Step::<Seq<u8>>::Failed(
                ApiError::StatusFailure { code: response.status, response },
            ),
        ),
        Pipeline::start().after(seq![Event::Response(response)] + later)
            == Pipeline::finished(),
        Pipeline::start().answer(seq![Event::Response(response)] + later) == Step::<
            Seq<u8>,
        >::Finished,
{
    let first = seq![Event::Response(response)];
    assert(first.drop_last() =~= Seq::<Event>::empty());
    assert(Pipeline::start().after(first.drop_last()) == Pipeline::start());
    assert(first.last() == Event::Response(response));
    lemma_nothing_after_outcome(Pipeline::start(), first, later);
}

/// While the body is awaited, chunks are appended in the order of arrival
/// and nothing else touches the buffer: after any number of chunks the
/// buffer is what it was, followed by the chunks joined, and the end of the
/// body then delivers exactly these bytes.
pub proof fn lemma_body_is_chunks_joined(pipeline: Pipeline, chunks: Seq<Vec<u8>>)
    requires
        pipeline.stage == Stage::AwaitingBody,
    ensures
        pipeline.after(Pipeline::chunk_events(chunks)) == (Pipeline {
            stage: Stage::AwaitingBody,
            buffer: pipeline.buffer + Pipeline::joined(chunks),
        }),
        pipeline.after(Pipeline::chunk_events(chunks)).next(Event::End) == (
            Pipeline::finished(),
            Step::Ready(pipeline.buffer + Pipeline::joined(chunks)),
        ),
    decreases chunks.len(),
{
    let events = Pipeline::chunk_events(chunks);
    if chunks.len() == 0 {
        assert(pipeline.buffer + Pipeline::joined(chunks) =~= pipeline.buffer);
    } else {
        lemma_body_is_chunks_joined(pipeline, chunks.drop_last());
        assert(events.drop_last() =~= Pipeline::chunk_events(chunks.drop_last()));
        assert(events.last() == Event::Chunk(chunks.last()));
        assert((pipeline.buffer + Pipeline::joined(chunks.drop_last())) + chunks.last()@
            =~= pipeline.buffer + Pipeline::joined(chunks));
    }
}

/// The whole course of a request that succeeds: a response with a success
/// status, then the chunks of the body, then its end, deliver the chunks
/// joined, and this is the only outcome.
pub proof fn lemma_success_delivers_whole_body(response: Response, chunks: Seq<Vec<u8>>)
    requires
        response.succeeded(),
    ensures
        Pipeline::start().answer(
            seq![Event::Response(response)] + Pipeline::chunk_events(chunks) + seq![Event::End],
        ) == Step::Ready(Pipeline::joined(chunks)),
{
    let first = seq![Event::Response(response)];
    let body = Pipeline::chunk_events(chunks);
    let all = first + body + seq![Event::End];
    assert(first.drop_last() =~= Seq::<Event>::empty());
    assert(first.last() == Event::Response(response));
    assert(Pipeline::start().after(first.drop_last()) == Pipeline::start());
    assert(Pipeline::start().after(first) == Pipeline::body_begun());
    assert(all.drop_last() =~= first + body);
    assert(all.last() == Event::End);
    lemma_after_concat(Pipeline::start(), first, body);
    lemma_body_is_chunks_joined(Pipeline::body_begun(), chunks);
    assert(Seq::<u8>::empty() + Pipeline::joined(chunks) =~= Pipeline::joined(chunks));
}

/// The typed result delivers what the parser answers to the complete body
/// and nothing else: where the parser has one answer to a body, a step that
/// concludes on that body delivers that answer, the value if the body is
/// valid and the parse failure if it is not.
pub proof fn lemma_typed_outcome_is_parser_answer<T: ParseBody>(
    step: Step<T>,
    body: Seq<u8>,
    value: Result<T, ParseError>,
)
    requires
        step.concludes(body),
        forall|other: Result<T, ParseError>| #[trigger] may_parse::<T>(body, other) ==> other == value,
    ensures
        step == Step::<T>::of_parsed(value),
        value is Ok ==> step == Step::Ready(value->Ok_0),
        value is Err ==> step == Step::<T>::Failed(ApiError::ParseFailure(value->Err_0)),
{
}

} // verus!
