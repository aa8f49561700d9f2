use std::sync::atomic::{AtomicUsize, Ordering};

use openstack::error::{ParseError, TransportError};
use openstack::http::{ApiResponse, ApiResult, Event, ParseBody, Response, Stage, Step};
use openstack::ApiError;

#[derive(Debug, Clone, PartialEq, Eq)]
struct Raw(Vec<u8>);

impl ParseBody for Raw {
    fn parse_body(body: &[u8]) -> Result<Self, ParseError> {
        if body.is_empty() {
            Err(ParseError { message: String::from("empty body") })
        } else {
            Ok(Raw(body.to_vec()))
        }
    }
}

static FORBIDDEN_CALLS: AtomicUsize = AtomicUsize::new(0);

#[derive(Debug, PartialEq, Eq)]
struct Forbidden;

impl ParseBody for Forbidden {
    fn parse_body(_body: &[u8]) -> Result<Self, ParseError> {
        FORBIDDEN_CALLS.fetch_add(1, Ordering::SeqCst);
        Ok(Forbidden)
    }
}

static COUNTED_CALLS: AtomicUsize = AtomicUsize::new(0);

#[derive(Debug, PartialEq, Eq)]
struct Counted(usize);

impl ParseBody for Counted {
    fn parse_body(body: &[u8]) -> Result<Self, ParseError> {
        COUNTED_CALLS.fetch_add(1, Ordering::SeqCst);
        Ok(Counted(body.len()))
    }
}

fn response(status: u16) -> Response {
    Response {
        status,
        headers: vec![(String::from("content-type"), String::from("application/json"))],
    }
}

fn lost() -> TransportError {
    TransportError { message: String::from("connection reset") }
}

#[test]
fn success_class_is_200_to_299() {
    for code in 200..300u16 {
        assert!(response(code).is_success());
    }
    for code in 0..200u16 {
        assert!(!response(code).is_success());
    }
    for code in 300..1000u16 {
        assert!(!response(code).is_success());
    }
    assert!(!response(u16::MAX).is_success());
}

#[test]
fn success_class_edges() {
    assert!(!response(199).is_success());
    assert!(response(200).is_success());
    assert!(response(299).is_success());
    assert!(!response(300).is_success());
    assert!(!response(99).is_success());
    assert!(!response(600).is_success());
}

#[test]
fn guard_starts_unresolved() {
    assert!(!ApiResponse::new().is_resolved());
}

#[test]
fn guard_not_ready_is_safe_to_repeat() {
    let mut guard = ApiResponse::new();
    for _ in 0..3 {
        assert_eq!(guard.poll(Event::NotReady), Step::Pending);
        assert!(!guard.is_resolved());
    }
    assert_eq!(guard.poll(Event::Response(response(204))), Step::Ready(response(204)));
    assert!(guard.is_resolved());
}

#[test]
fn guard_passes_success_unchanged() {
    let mut guard = ApiResponse::new();
    let ok = Response {
        status: 200,
        headers: vec![
            (String::from("content-length"), String::from("2")),
            (String::from("x-request-id"), String::from("req-1")),
        ],
    };
    assert_eq!(guard.poll(Event::Response(ok.clone())), Step::Ready(ok));
    assert!(guard.is_resolved());
}

#[test]
fn guard_refuses_every_other_class() {
    for code in [100u16, 199, 300, 301, 302, 304, 400, 401, 403, 404, 409, 500, 503, 599] {
        let mut guard = ApiResponse::new();
        assert_eq!(
            guard.poll(Event::Response(response(code))),
            Step::Failed(ApiError::StatusFailure { code, response: response(code) })
        );
        assert!(guard.is_resolved());
    }
}

#[test]
fn guard_redirect_is_a_failure() {
    let mut guard = ApiResponse::new();
    let moved = Response {
        status: 301,
        headers: vec![(String::from("location"), String::from("http://elsewhere/"))],
    };
    assert_eq!(
        guard.poll(Event::Response(moved.clone())),
        Step::Failed(ApiError::StatusFailure { code: 301, response: moved })
    );
}

#[test]
fn guard_surfaces_transport_failure() {
    let mut guard = ApiResponse::new();
    assert_eq!(guard.poll(Event::Failed(lost())), Step::Failed(ApiError::TransportFailure(lost())));
    assert!(guard.is_resolved());
}

#[test]
fn guard_answers_once() {
    let mut guard = ApiResponse::new();
    assert_eq!(guard.poll(Event::Response(response(200))), Step::Ready(response(200)));
    assert_eq!(guard.poll(Event::Response(response(200))), Step::Finished);
    assert_eq!(guard.poll(Event::Failed(lost())), Step::Finished);
    assert_eq!(guard.poll(Event::NotReady), Step::Finished);
    assert!(guard.is_resolved());
}

#[test]
fn guard_ignores_body_events() {
    let mut guard = ApiResponse::new();
    assert_eq!(guard.poll(Event::Chunk(vec![1])), Step::Continue);
    assert_eq!(guard.poll(Event::End), Step::Continue);
    assert!(!guard.is_resolved());
}

#[test]
fn result_starts_awaiting_response() {
    let result: ApiResult<Raw> = ApiResult::new(ApiResponse::new());
    assert_eq!(result.stage(), Stage::AwaitingResponse);
}

#[test]
fn result_from_resolved_guard_is_done() {
    let mut guard = ApiResponse::new();
    assert_eq!(guard.poll(Event::Response(response(200))), Step::Ready(response(200)));
    let mut result: ApiResult<Raw> = ApiResult::new(guard);
    assert_eq!(result.stage(), Stage::Done);
    assert_eq!(result.poll(Event::Response(response(200))), Step::Finished);
    assert_eq!(result.poll(Event::End), Step::Finished);
}

#[test]
fn success_path_concatenates_chunks_in_order() {
    let mut result: ApiResult<Raw> = ApiResult::new(ApiResponse::new());
    assert_eq!(result.poll(Event::NotReady), Step::Pending);
    assert_eq!(result.stage(), Stage::AwaitingResponse);
    assert_eq!(result.poll(Event::Response(response(200))), Step::Continue);
    assert_eq!(result.stage(), Stage::AwaitingBody);
    assert_eq!(result.poll(Event::Chunk(vec![1, 2])), Step::Continue);
    assert_eq!(result.poll(Event::NotReady), Step::Pending);
    assert_eq!(result.stage(), Stage::AwaitingBody);
    assert_eq!(result.poll(Event::Chunk(vec![])), Step::Continue);
    assert_eq!(result.poll(Event::Chunk(vec![3])), Step::Continue);
    assert_eq!(result.poll(Event::Chunk(vec![4, 5, 6])), Step::Continue);
    assert_eq!(result.poll(Event::End), Step::Ready(Raw(vec![1, 2, 3, 4, 5, 6])));
    assert_eq!(result.stage(), Stage::Done);
}

#[test]
fn body_without_chunks_is_empty() {
    let mut result: ApiResult<Counted> = ApiResult::new(ApiResponse::new());
    assert_eq!(result.poll(Event::Response(response(204))), Step::Continue);
    assert_eq!(result.poll(Event::End), Step::Ready(Counted(0)));
}

#[test]
fn parse_failure_is_wrapped() {
    let mut result: ApiResult<Raw> = ApiResult::new(ApiResponse::new());
    assert_eq!(result.poll(Event::Response(response(200))), Step::Continue);
    assert_eq!(
        result.poll(Event::End),
        Step::Failed(ApiError::ParseFailure(ParseError { message: String::from("empty body") }))
    );
    assert_eq!(result.stage(), Stage::Done);
}

#[test]
fn transport_failure_before_response() {
    let mut result: ApiResult<Raw> = ApiResult::new(ApiResponse::new());
    assert_eq!(result.poll(Event::Failed(lost())), Step::Failed(ApiError::TransportFailure(lost())));
    assert_eq!(result.stage(), Stage::Done);
    assert_eq!(result.poll(Event::Response(response(200))), Step::Finished);
}

#[test]
fn transport_failure_during_body() {
    let mut result: ApiResult<Raw> = ApiResult::new(ApiResponse::new());
    assert_eq!(result.poll(Event::Response(response(200))), Step::Continue);
    assert_eq!(result.poll(Event::Chunk(vec![1, 2, 3])), Step::Continue);
    assert_eq!(result.poll(Event::Failed(lost())), Step::Failed(ApiError::TransportFailure(lost())));
    assert_eq!(result.stage(), Stage::Done);
    assert_eq!(result.poll(Event::End), Step::Finished);
}

#[test]
fn refused_status_never_reaches_the_parser() {
    let before = FORBIDDEN_CALLS.load(Ordering::SeqCst);
    let mut result: ApiResult<Forbidden> = ApiResult::new(ApiResponse::new());
    assert_eq!(
        result.poll(Event::Response(response(404))),
        Step::Failed(ApiError::StatusFailure { code: 404, response: response(404) })
    );
    assert_eq!(result.stage(), Stage::Done);
    let valid = String::from("{\"id\":\"abc\",\"name\":\"vm1\"}").into_bytes();
    assert_eq!(result.poll(Event::Chunk(valid)), Step::Finished);
    assert_eq!(result.poll(Event::End), Step::Finished);
    assert_eq!(result.stage(), Stage::Done);
    assert_eq!(FORBIDDEN_CALLS.load(Ordering::SeqCst), before);
}

#[test]
fn parser_runs_once_and_nothing_follows_the_outcome() {
    let before = COUNTED_CALLS.load(Ordering::SeqCst);
    let mut result: ApiResult<Counted> = ApiResult::new(ApiResponse::new());
    assert_eq!(result.poll(Event::Response(response(200))), Step::Continue);
    assert_eq!(COUNTED_CALLS.load(Ordering::SeqCst), before);
    assert_eq!(result.poll(Event::Chunk(vec![7; 10])), Step::Continue);
    assert_eq!(COUNTED_CALLS.load(Ordering::SeqCst), before);
    assert_eq!(result.poll(Event::NotReady), Step::Pending);
    assert_eq!(COUNTED_CALLS.load(Ordering::SeqCst), before);
    assert_eq!(result.poll(Event::End), Step::Ready(Counted(10)));
    assert_eq!(COUNTED_CALLS.load(Ordering::SeqCst), before + 1);
    for _ in 0..5 {
        assert_eq!(result.poll(Event::End), Step::Finished);
        assert_eq!(result.poll(Event::NotReady), Step::Finished);
        assert_eq!(result.poll(Event::Chunk(vec![1])), Step::Finished);
        assert_eq!(result.poll(Event::Response(response(200))), Step::Finished);
        assert_eq!(result.poll(Event::Failed(lost())), Step::Finished);
        assert_eq!(result.stage(), Stage::Done);
    }
    assert_eq!(COUNTED_CALLS.load(Ordering::SeqCst), before + 1);
}

#[test]
fn events_not_asked_for_change_nothing() {
    let mut result: ApiResult<Raw> = ApiResult::new(ApiResponse::new());
    assert_eq!(result.poll(Event::Chunk(vec![9, 9])), Step::Continue);
    assert_eq!(result.poll(Event::End), Step::Continue);
    assert_eq!(result.stage(), Stage::AwaitingResponse);
    assert_eq!(result.poll(Event::Response(response(200))), Step::Continue);
    assert_eq!(result.poll(Event::Chunk(vec![1])), Step::Continue);
    assert_eq!(result.poll(Event::Response(response(500))), Step::Continue);
    assert_eq!(result.stage(), Stage::AwaitingBody);
    assert_eq!(result.poll(Event::Chunk(vec![2])), Step::Continue);
    assert_eq!(result.poll(Event::End), Step::Ready(Raw(vec![1, 2])));
}

#[test]
fn second_response_does_not_restart_the_body() {
    let mut result: ApiResult<Raw> = ApiResult::new(ApiResponse::new());
    assert_eq!(result.poll(Event::Response(response(200))), Step::Continue);
    assert_eq!(result.poll(Event::Chunk(vec![1, 2, 3])), Step::Continue);
    assert_eq!(result.poll(Event::Response(response(200))), Step::Continue);
    assert_eq!(result.poll(Event::End), Step::Ready(Raw(vec![1, 2, 3])));
}

#[test]
fn from_parsed_delivers_value_or_parse_failure() {
    assert_eq!(Step::from_parsed(Ok(Raw(vec![1]))), Step::Ready(Raw(vec![1])));
    let error = ParseError { message: String::from("missing field `id`") };
    assert_eq!(
        Step::<Raw>::from_parsed(Err(error.clone())),
        Step::Failed(ApiError::ParseFailure(error))
    );
}

#[test]
fn independent_results_share_nothing() {
    let mut first: ApiResult<Raw> = ApiResult::new(ApiResponse::new());
    let mut second: ApiResult<Raw> = ApiResult::new(ApiResponse::new());
    assert_eq!(first.poll(Event::Response(response(200))), Step::Continue);
    assert_eq!(second.poll(Event::Response(response(201))), Step::Continue);
    assert_eq!(first.poll(Event::Chunk(vec![1])), Step::Continue);
    assert_eq!(second.poll(Event::Chunk(vec![2])), Step::Continue);
    assert_eq!(second.poll(Event::End), Step::Ready(Raw(vec![2])));
    assert_eq!(first.poll(Event::Chunk(vec![3])), Step::Continue);
    assert_eq!(first.poll(Event::End), Step::Ready(Raw(vec![1, 3])));
}
