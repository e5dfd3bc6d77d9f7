//! Requests as they are read and responses as they are written.

use uds_policy::http::{
    content_length_of, format_response, reason_phrase, ReadAction, ReadStage, RequestLine,
    RequestReader,
};
use uds_policy::{ErrorKind, FrameworkErrorKind, HttpVerb, IoError, Reply, ServeOutcome};

#[test]
fn a_request_line_yields_a_verb_and_a_path() {
    let line = RequestLine::parse("POST /v1/thing/change HTTP/1.1\r\nhost: d\r\n\r\n")
        .expect("a well-formed request line was rejected");
    assert_eq!(line.verb, HttpVerb::Post);
    assert_eq!(line.path, "/v1/thing/change");
    assert_eq!(line.context(), "POST /v1/thing/change");
}

#[test]
fn a_request_line_is_exactly_three_fields_of_a_version_we_speak() {
    assert!(RequestLine::parse("GET /v1/status HTTP/1.0\r\n\r\n").is_ok());
    assert!(RequestLine::parse("GET /v1/status HTTP/2\r\n\r\n").is_err());
    assert!(RequestLine::parse("GET /v1/status HTTP/1.1 extra\r\n\r\n").is_err());
    assert!(RequestLine::parse("GET /v1/status\r\n\r\n").is_err());
}

#[test]
fn content_length_is_read_case_insensitively_and_defaults_to_zero() {
    assert_eq!(
        content_length_of("POST /x HTTP/1.1\r\nContent-Length: 12\r\n\r\n"),
        Ok(12)
    );
    assert_eq!(
        content_length_of("POST /x HTTP/1.1\r\ncontent-length: 3\r\n\r\n"),
        Ok(3)
    );
    assert_eq!(content_length_of("GET /x HTTP/1.1\r\n\r\n"), Ok(0));
    assert!(content_length_of("POST /x HTTP/1.1\r\ncontent-length: n\r\n\r\n").is_err());
}

/// `content-length` must be the body's byte count, not its character count: a
/// client reading exactly that many bytes off a multi-byte reply would
/// otherwise hang or truncate.
#[test]
fn the_response_declares_the_bodys_length_in_bytes() {
    let reply = Reply {
        status: 200,
        body: r#"{"ok":"café"}"#.to_owned(),
    };
    let response = format_response(&reply);
    assert!(response.contains("content-length: 14\r\n"), "{response}");
    assert!(response.starts_with("HTTP/1.1 200 OK\r\n"));
    assert!(response.contains("connection: close\r\n"));
}

#[test]
fn unlisted_statuses_still_produce_a_legal_response() {
    assert_eq!(reason_phrase(200), "OK");
    assert_eq!(reason_phrase(418), "Unknown");
}

#[test]
fn each_fault_of_a_request_line_is_named() {
    let fault = |headers: &str| RequestLine::parse(headers).unwrap_err();
    assert_eq!(fault(""), "HTTP request line is missing");
    assert_eq!(fault("\r\n\r\n"), "HTTP method is missing");
    assert_eq!(fault(" \t\u{a0}\r\n"), "HTTP method is missing");
    assert_eq!(fault("GET\r\n"), "HTTP path is missing");
    assert_eq!(fault("GET /\r\n"), "HTTP version is missing");
    assert_eq!(fault("GET / HTTP/3 x\r\n"), "HTTP request line has too many fields");
    assert_eq!(fault("GET / HTTP/3\r\n"), "unsupported HTTP version: HTTP/3");
}

#[test]
fn fields_may_be_set_apart_by_any_blanks() {
    let line = RequestLine::parse("\u{3000}PUT\t/a\u{2003}\u{85}HTTP/1.0").unwrap();
    assert_eq!(line.method, "PUT");
    assert_eq!(line.verb, HttpVerb::Other);
    assert_eq!(line.path, "/a");
}

#[test]
fn a_request_line_is_read_back() {
    for method in ["GET", "POST", "é"] {
        for version in ["HTTP/1.0", "HTTP/1.1"] {
            let line =
                RequestLine::parse(&format!("{method} /p {version}\r\nrest: 1\r\n\r\n")).unwrap();
            assert_eq!(line.context(), format!("{method} /p"));
        }
    }
}

#[test]
fn the_last_declared_length_counts() {
    assert_eq!(content_length_of("content-length: 3\ncontent-length:\t+07 \n"), Ok(7));
    assert_eq!(content_length_of("x: y\r\nCONTENT-LENGTH:0"), Ok(0));
    // Not the header, for all that it looks like it.
    assert_eq!(content_length_of("content-length : 3\r\n"), Ok(0));
    assert_eq!(content_length_of("content-length 3\r\n"), Ok(0));
}

#[test]
fn each_fault_of_a_length_is_named() {
    let fault = |value: &str| content_length_of(&format!("content-length:{value}")).unwrap_err();
    assert_eq!(
        fault(" "),
        "invalid Content-Length header: cannot parse integer from empty string"
    );
    for value in ["+", "-", "-1", "1 2", "0x1", "٣", "99999999999999999999999x"] {
        let error = fault(value);
        assert!(
            error == "invalid Content-Length header: invalid digit found in string"
                || value.len() > 20,
            "{value}: {error}"
        );
    }
    assert_eq!(
        fault("99999999999999999999999x"),
        "invalid Content-Length header: number too large to fit in target type"
    );
    assert_eq!(content_length_of("content-length: 18446744073709551615"), Ok(usize::MAX));
    assert_eq!(
        fault("18446744073709551616"),
        "invalid Content-Length header: number too large to fit in target type"
    );
}

#[test]
fn a_response_is_a_head_and_a_body() {
    let reply = Reply { status: 404, body: "{}".to_owned() };
    assert_eq!(
        format_response(&reply),
        "HTTP/1.1 404 Not Found\r\n\
         content-type: application/json\r\n\
         content-length: 2\r\n\
         connection: close\r\n\
         \r\n\
         {}"
    );
}

#[test]
fn a_response_head_says_how_long_the_body_is() {
    for body in ["", "x", "café", "☃"] {
        for status in [200, 418, 503] {
            let framed = format_response(&Reply { status, body: body.to_owned() });
            let head = framed.split_once("\r\n\r\n").unwrap().0;
            assert_eq!(content_length_of(head), Ok(body.len()));
        }
    }
}

#[test]
fn every_listed_status_has_its_phrase() {
    let listed = [
        (201, "Created"),
        (202, "Accepted"),
        (204, "No Content"),
        (400, "Bad Request"),
        (401, "Unauthorized"),
        (403, "Forbidden"),
        (405, "Method Not Allowed"),
        (409, "Conflict"),
        (413, "Content Too Large"),
        (422, "Unprocessable Content"),
        (429, "Too Many Requests"),
        (500, "Internal Server Error"),
        (501, "Not Implemented"),
        (503, "Service Unavailable"),
    ];
    for (status, phrase) in listed {
        assert_eq!(reason_phrase(status), phrase);
    }
}

fn refused(action: ReadAction) -> (FrameworkErrorKind, String) {
    match action {
        ReadAction::Refuse(kind, message) => (kind, message),
        other => panic!("not refused: {other:?}"),
    }
}

#[test]
fn a_request_without_a_body_is_read_to_its_blank_line() {
    let mut reader = RequestReader::new(100, 100);
    assert_eq!(reader.stage(), ReadStage::Headers);
    assert!(matches!(reader.line("GET /v1/status HTTP/1.1\r\n"), ReadAction::ReadLine));
    assert!(matches!(reader.line("host: d\r\n"), ReadAction::ReadLine));
    match reader.line("\r\n") {
        ReadAction::Respond(request) => {
            assert_eq!(request.line.verb, HttpVerb::Get);
            assert_eq!(request.line.path, "/v1/status");
            assert_eq!(request.body, "");
        }
        other => panic!("not a request: {other:?}"),
    }
    assert_eq!(reader.stage(), ReadStage::Done);
}

#[test]
fn a_body_is_read_for_as_long_as_it_was_declared() {
    let mut reader = RequestReader::new(100, 5);
    assert!(matches!(reader.line("POST /x HTTP/1.1\r\n"), ReadAction::ReadLine));
    assert!(matches!(reader.line("content-length: 5\r\n"), ReadAction::ReadLine));
    assert!(matches!(reader.line("\r\n"), ReadAction::ReadBody(5)));
    assert_eq!(reader.stage(), ReadStage::Body(5));
    match reader.body("café".as_bytes().to_vec()) {
        ReadAction::Respond(request) => assert_eq!(request.body, "café"),
        other => panic!("not a request: {other:?}"),
    }
}

#[test]
fn a_connection_without_a_byte_is_a_probe() {
    let mut reader = RequestReader::new(0, 0);
    assert!(matches!(reader.line(""), ReadAction::Probe));
}

#[test]
fn a_connection_that_ends_in_its_headers_is_truncated() {
    let mut reader = RequestReader::new(100, 100);
    assert!(matches!(reader.line("POST /v1/thing/change HTTP/1.1\r\n"), ReadAction::ReadLine));
    assert_eq!(
        refused(reader.line("")),
        (
            FrameworkErrorKind::InvalidInput,
            "client closed connection before completing HTTP request".to_owned()
        )
    );
}

#[test]
fn headers_are_bounded_in_bytes() {
    let too_large = (
        FrameworkErrorKind::PayloadTooLarge,
        "HTTP headers exceed maximum size".to_owned(),
    );
    let mut reader = RequestReader::new(4, 0);
    assert!(matches!(reader.line("é\r\n"), ReadAction::ReadLine));
    assert_eq!(refused(reader.line("x")), too_large);
    // The blank line ends the header block before it is measured again.
    let mut reader = RequestReader::new(16, 0);
    assert!(matches!(reader.line("GET / HTTP/1.1\r\n"), ReadAction::ReadLine));
    assert!(matches!(reader.line("\r\n"), ReadAction::Respond(_)));
}

#[test]
fn a_body_is_bounded_before_it_is_read() {
    let mut reader = RequestReader::new(100, 4);
    reader.line("POST / HTTP/1.1\r\n");
    reader.line("content-length: 5\r\n");
    assert_eq!(
        refused(reader.line("\r\n")),
        (
            FrameworkErrorKind::PayloadTooLarge,
            "HTTP body exceeds maximum size".to_owned()
        )
    );
}

#[test]
fn a_malformed_length_is_refused_before_the_request_line_is_looked_at() {
    let mut reader = RequestReader::new(100, 4);
    reader.line("nonsense\r\n");
    reader.line("content-length: x\r\n");
    assert_eq!(
        refused(reader.line("\r\n")),
        (
            FrameworkErrorKind::InvalidInput,
            "invalid Content-Length header: invalid digit found in string".to_owned()
        )
    );
}

#[test]
fn a_body_has_to_be_text() {
    let mut reader = RequestReader::new(100, 4);
    reader.line("nonsense\r\n");
    reader.line("content-length: 2\r\n");
    reader.line("\r\n");
    assert_eq!(
        refused(reader.body(vec![0xc3, 0x28])),
        (
            FrameworkErrorKind::InvalidInput,
            "HTTP body is not valid UTF-8".to_owned()
        )
    );
}

#[test]
fn a_malformed_request_line_is_refused_last() {
    let mut reader = RequestReader::new(100, 4);
    reader.line("nonsense\r\n");
    assert_eq!(
        refused(reader.line("\r\n")),
        (FrameworkErrorKind::InvalidInput, "HTTP path is missing".to_owned())
    );
}

/// However a header block is cut into reads, it is judged as a whole.
#[test]
fn a_header_block_is_read_whole() {
    let mut whole = RequestReader::new(100, 100);
    assert!(matches!(
        whole.line("POST / HTTP/1.1\r\ncontent-length: 1\r\n"),
        ReadAction::ReadLine
    ));
    assert!(matches!(whole.line("\r\n"), ReadAction::ReadBody(1)));
    let mut cut = RequestReader::new(100, 100);
    for part in ["POST / HTTP/1.1\r\n", "content-", "length: 1\r\n"] {
        assert!(matches!(cut.line(part), ReadAction::ReadLine));
    }
    assert!(matches!(cut.line("\r\n"), ReadAction::ReadBody(1)));
}

#[test]
fn outcomes_name_the_request_once_there_was_one() {
    let line = RequestLine::parse("GET /v1/status HTTP/1.1\r\n").unwrap();
    assert!(matches!(ServeOutcome::answered(&line, Ok(())), ServeOutcome::Answered));
    let broken = IoError { kind: ErrorKind::Other, message: "Broken pipe".to_owned() };
    match ServeOutcome::answered(&line, Err(broken.clone())) {
        ServeOutcome::Failed { context, error } => {
            assert_eq!(context, Some("GET /v1/status".to_owned()));
            assert_eq!(error, broken);
        }
        other => panic!("not a failure: {other:?}"),
    }
    match ServeOutcome::refused("too much".to_owned()) {
        ServeOutcome::Failed { context, error } => {
            assert_eq!(context, None);
            assert_eq!(error.to_string(), "too much");
            assert_eq!(error.kind, ErrorKind::Other);
        }
        other => panic!("not a failure: {other:?}"),
    }
    match ServeOutcome::unreadable(broken.clone()) {
        ServeOutcome::Failed { context, error } => {
            assert_eq!(context, None);
            assert_eq!(error, broken);
        }
        other => panic!("not a failure: {other:?}"),
    }
}

/// What a client writes is what is read.
#[test]
fn a_framed_request_is_read_back() {
    let bodies = ["", "x", "café\r\n\r\ncontent-length: 9"];
    let methods = ["PUT", "x-content-length:9", ":"];
    for (body, method) in bodies.iter().flat_map(|body| methods.map(|method| (*body, method))) {
        let mut reader = RequestReader::new(100, 100);
        let first = format!("{method} /a:b HTTP/1.0\r\n");
        assert!(matches!(reader.line(&first), ReadAction::ReadLine));
        let declared = format!("content-length: {}\r\n", body.len());
        assert!(matches!(reader.line(&declared), ReadAction::ReadLine));
        let mut action = reader.line("\r\n");
        if !body.is_empty() {
            assert!(matches!(action, ReadAction::ReadBody(length) if length == body.len()));
            action = reader.body(body.as_bytes().to_vec());
        }
        match action {
            ReadAction::Respond(request) => {
                assert_eq!(request.line.context(), format!("{method} /a:b"));
                assert_eq!(request.line.verb, HttpVerb::Other);
                assert_eq!(request.body, body);
            }
            other => panic!("not a request: {other:?}"),
        }
    }
}

/// The one method that reads as the header it starts with.
#[test]
fn a_request_line_that_reads_as_a_header_is_one() {
    assert!(content_length_of("content-length:5 / HTTP/1.1\r\n\r\n").is_err());
    assert!(content_length_of("Content-Length:5 / HTTP/1.1\r\n\r\n").is_err());
}
