use openstack::compute::v2::protocol::{de_server_status, ServerStatus, ServerSummary, ServersRoot};
use openstack::error::ParseError;
use openstack::http::{ApiResponse, ApiResult, Event, ParseBody, Response, Stage, Step};
use openstack::ApiError;

fn failure(message: &str) -> ParseError {
    ParseError { message: String::from(message) }
}

fn text_field(value: &serde_json::Value, name: &str) -> Result<String, ParseError> {
    match value.get(name).and_then(|field| field.as_str()) {
        Some(text) => Ok(String::from(text)),
        None => Err(failure(&format!("missing field `{}`", name))),
    }
}

fn summary_of(value: &serde_json::Value) -> Result<ServerSummary, ParseError> {
    Ok(ServerSummary { id: text_field(value, "id")?, name: text_field(value, "name")? })
}

fn document(body: &[u8]) -> Result<serde_json::Value, ParseError> {
    serde_json::from_slice(body).map_err(|error| failure(&error.to_string()))
}

#[derive(Debug, Clone, PartialEq, Eq)]
struct Summary(ServerSummary);

impl ParseBody for Summary {
    fn parse_body(body: &[u8]) -> Result<Self, ParseError> {
        summary_of(&document(body)?).map(Summary)
    }
}

#[derive(Debug, Clone, PartialEq, Eq)]
struct Listing(ServersRoot);

impl ParseBody for Listing {
    fn parse_body(body: &[u8]) -> Result<Self, ParseError> {
        let value = document(body)?;
        let servers = match value.get("servers").and_then(|field| field.as_array()) {
            Some(servers) => servers,
            None => return Err(failure("missing field `servers`")),
        };
        let mut summaries = Vec::new();
        for server in servers {
            summaries.push(summary_of(server)?);
        }
        Ok(Listing(ServersRoot { servers: summaries }))
    }
}

#[derive(Debug, Clone, PartialEq, Eq)]
struct StatusOnly {
    id: String,
    status: ServerStatus,
}

impl ParseBody for StatusOnly {
    fn parse_body(body: &[u8]) -> Result<Self, ParseError> {
        let value = document(body)?;
        let status = match value.get("status") {
            None => ServerStatus::default(),
            Some(field) => match field.as_str() {
                Some(text) => de_server_status(text),
                None => return Err(failure("invalid type for `status`")),
            },
        };
        Ok(StatusOnly { id: text_field(&value, "id")?, status })
    }
}

fn response(status: u16) -> Response {
    Response { status, headers: Vec::new() }
}

fn deliver<T: ParseBody>(status: u16, chunks: &[&[u8]]) -> Step<T> {
    let mut result: ApiResult<T> = ApiResult::new(ApiResponse::new());
    let mut step = result.poll(Event::Response(response(status)));
    for chunk in chunks {
        if result.stage() != Stage::AwaitingBody {
            return step;
        }
        step = result.poll(Event::Chunk(chunk.to_vec()));
    }
    if result.stage() == Stage::AwaitingBody {
        step = result.poll(Event::End);
    }
    step
}

#[test]
fn request_valid_body_yields_typed_value() {
    let body = b"{\"id\":\"abc\",\"name\":\"vm1\",\"tenant_id\":\"t\",\"user_id\":\"u\"}";
    match deliver::<Summary>(200, &[body]) {
        Step::Ready(Summary(server)) => {
            assert_eq!(server.id, "abc");
            assert_eq!(server.name, "vm1");
        }
        other => panic!("unexpected step: {:?}", other),
    }
}

#[test]
fn request_valid_body_in_pieces_yields_same_value() {
    let whole = deliver::<Summary>(200, &[b"{\"id\":\"abc\",\"name\":\"vm1\"}"]);
    let pieces = deliver::<Summary>(200, &[b"{\"id\":\"a", b"bc\",\"na", b"", b"me\":\"vm1\"}"]);
    assert_eq!(
        whole,
        Step::Ready(Summary(ServerSummary { id: String::from("abc"), name: String::from("vm1") }))
    );
    assert_eq!(pieces, whole);
}

#[test]
fn request_listing_is_deep_equal() {
    let body = b"{\"servers\":[{\"id\":\"abc\",\"name\":\"vm1\"},{\"id\":\"def\",\"name\":\"vm2\"}]}";
    let expected = ServersRoot {
        servers: vec![
            ServerSummary { id: String::from("abc"), name: String::from("vm1") },
            ServerSummary { id: String::from("def"), name: String::from("vm2") },
        ],
    };
    assert_eq!(deliver::<Listing>(200, &[body]), Step::Ready(Listing(expected)));
}

#[test]
fn request_server_error_yields_status_failure() {
    let mut result: ApiResult<Summary> = ApiResult::new(ApiResponse::new());
    let step = result.poll(Event::Response(response(500)));
    assert_eq!(step, Step::Failed(ApiError::StatusFailure { code: 500, response: response(500) }));
    match step {
        Step::Failed(ApiError::StatusFailure { code, .. }) => assert_eq!(code, 500),
        other => panic!("unexpected step: {:?}", other),
    }
    assert_eq!(result.stage(), Stage::Done);
}

#[test]
fn request_server_error_with_any_body() {
    let bodies: [&[u8]; 3] = [b"", b"{\"id\":\"abc\",\"name\":\"vm1\"}", b"<html>oops</html>"];
    for body in bodies {
        assert_eq!(
            deliver::<Summary>(500, &[body]),
            Step::Failed(ApiError::StatusFailure { code: 500, response: response(500) })
        );
    }
}

#[test]
fn request_truncated_body_yields_parse_failure() {
    let step = deliver::<Summary>(200, &[b"{\"id\":\"abc\",\"na"]);
    assert!(matches!(step, Step::Failed(ApiError::ParseFailure(_))));
}

#[test]
fn request_invalid_json_yields_parse_failure() {
    assert!(matches!(
        deliver::<Summary>(200, &[b"not json at all"]),
        Step::Failed(ApiError::ParseFailure(_))
    ));
    assert!(matches!(deliver::<Summary>(200, &[]), Step::Failed(ApiError::ParseFailure(_))));
}

#[test]
fn request_missing_required_field_yields_parse_failure() {
    assert_eq!(
        deliver::<Summary>(200, &[b"{\"id\":\"abc\"}"]),
        Step::Failed(ApiError::ParseFailure(failure("missing field `name`")))
    );
}

#[test]
fn request_status_error_decodes_to_error_variant() {
    assert_eq!(
        deliver::<StatusOnly>(200, &[b"{\"id\":\"abc\",\"status\":\"ERROR\"}"]),
        Step::Ready(StatusOnly { id: String::from("abc"), status: ServerStatus::Error })
    );
}

#[test]
fn request_unrecognized_status_does_not_fail_the_request() {
    assert_eq!(
        deliver::<StatusOnly>(200, &[b"{\"id\":\"abc\",\"status\":\"TOTALLY_NEW_STATE\"}"]),
        Step::Ready(StatusOnly { id: String::from("abc"), status: ServerStatus::Unknown })
    );
}

#[test]
fn request_absent_status_defaults_to_unknown() {
    assert_eq!(
        deliver::<StatusOnly>(200, &[b"{\"id\":\"abc\"}"]),
        Step::Ready(StatusOnly { id: String::from("abc"), status: ServerStatus::Unknown })
    );
}
