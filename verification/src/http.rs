//! A hand-rolled HTTP/1.1 reader for one connection at a time.
//!
//! One request per connection and `connection: close`: no keep-alive, no
//! chunked transfer, and no header that matters other than `content-length`.
//! [`RequestReader`] says what to read next and what to make of it; whoever
//! holds the connection does the reading and the writing.
use crate::handler::Reply;
use crate::io::IoError;
use crate::service::{self, FrameworkErrorKind, HttpVerb};
use crate::text::{
    self, chars_of, cut, find, is_word_ignoring_case, lines_of, fields_of, parse_number, same_text,
    text_of, trim, utf8_text, decimal_text, NumberError,
};
use vstd::prelude::*;
use vstd::string::StringExecFns;
use vstd::utf8;

verus! {

/// The `METHOD /path HTTP/1.x` of a request.
#[derive(Debug)]
pub struct RequestLine {
    /// The method token, as the client wrote it.
    pub method: String,
    /// What the method token stands for.
    pub verb: HttpVerb,
    /// The request target.
    pub path: String,
}

/// What a request line says.
#[verifier::ext_equal]
pub struct RequestLineView {
    /// The method token, as the client wrote it.
    pub method: Seq<char>,
    /// What the method token stands for.
    pub verb: HttpVerb,
    /// The request target.
    pub path: Seq<char>,
}

impl View for RequestLine {
    type V = RequestLineView;

    open spec fn view(&self) -> RequestLineView {
        RequestLineView { method: self.method@, verb: self.verb, path: self.path@ }
    }
}

/// Whether a version token names a version this reader speaks.
pub open spec fn speaks(version: Seq<char>) -> bool {
    version == "HTTP/1.1"@ || version == "HTTP/1.0"@
}

/// What the first line of a header block says, or why it is no request line:
/// it has to be exactly three fields, the last a version this reader speaks.
pub open spec fn request_line(headers: Seq<char>) -> Result<RequestLineView, Seq<char>> {
    if text::lines(headers).len() == 0 {
        Err("HTTP request line is missing"@)
    } else {
        let parts = text::fields(text::lines(headers)[0]);
        if parts.len() == 0 {
            Err("HTTP method is missing"@)
        } else if parts.len() == 1 {
            Err("HTTP path is missing"@)
        } else if parts.len() == 2 {
            Err("HTTP version is missing"@)
        } else if parts.len() > 3 {
            Err("HTTP request line has too many fields"@)
        } else if !speaks(parts[2]) {
            Err("unsupported HTTP version: "@ + parts[2])
        } else {
            Ok(
                RequestLineView {
                    method: parts[0],
                    verb: service::verb_of(parts[0]),
                    path: parts[1],
                },
            )
        }
    }
}

impl RequestLine {
    /// Read the request line off a header block.
    pub fn parse(headers: &str) -> (parsed: Result<Self, String>)
        ensures
            match parsed {
                Ok(line) => request_line(headers@) == Ok::<RequestLineView, Seq<char>>(line@),
                Err(message) => request_line(headers@) == Err::<RequestLineView, Seq<char>>(
                    message@,
                ),
            },
    {
        let all = chars_of(headers);
        let found = lines_of(all.as_slice());
        assert(text::spelled(found@).len() == found@.len());
        if found.len() == 0 {
            return Err("HTTP request line is missing".to_owned());
        }
        assert(text::spelled(found@)[0] == found@[0]@);
        let parts = fields_of(found[0].as_slice());
        assert(text::spelled(parts@).len() == parts@.len());
        if parts.len() == 0 {
            return Err("HTTP method is missing".to_owned());
        }
        if parts.len() == 1 {
            return Err("HTTP path is missing".to_owned());
        }
        if parts.len() == 2 {
            return Err("HTTP version is missing".to_owned());
        }
        if parts.len() > 3 {
            return Err("HTTP request line has too many fields".to_owned());
        }
        assert(forall|i: int|
            0 <= i < parts@.len() ==> text::spelled(parts@)[i] == (#[trigger] parts@[i])@);
        let version = text_of(parts[2].as_slice());
        if !same_text(version.as_str(), "HTTP/1.1") && !same_text(version.as_str(), "HTTP/1.0") {
            let mut message = "unsupported HTTP version: ".to_owned();
            message.append(version.as_str());
            return Err(message);
        }
        let method = text_of(parts[0].as_slice());
        let path = text_of(parts[1].as_slice());
        let verb = HttpVerb::parse(method.as_str());
        Ok(RequestLine { method, verb, path })
    }

    /// The two fields worth putting in a small journal.
    pub fn context(&self) -> (context: String)
        ensures
            context@ == self.method@ + " "@ + self.path@,
    {
        let mut context = self.method.clone();
        context.append(" ");
        context.append(self.path.as_str());
        context
    }
}

/// The value of a `content-length` header, if that is what a line holds.
pub open spec fn length_header(line: Seq<char>) -> Option<Seq<char>> {
    let colon = text::position(line, ':');
    if colon < line.len() && text::lowered(line.take(colon)) == "content-length"@ {
        Some(text::trimmed(line.skip(colon + 1)))
    } else {
        None
    }
}

/// The length that header lines declare, `so_far` where they declare none. The
/// last declaration counts, and the first one that is no number is the error.
pub open spec fn declared_length(lines: Seq<Seq<char>>, so_far: nat) -> Result<nat, NumberError>
    decreases lines.len(),
{
    if lines.len() == 0 {
        Ok(so_far)
    } else {
        match length_header(lines[0]) {
            None => declared_length(lines.skip(1), so_far),
            Some(value) => match text::number(value, usize::MAX as nat) {
                Ok(length) => declared_length(lines.skip(1), length),
                Err(error) => Err(error),
            },
        }
    }
}

/// The body length that a header block declares, zero where it declares none.
pub open spec fn content_length(headers: Seq<char>) -> Result<nat, Seq<char>> {
    match declared_length(text::lines(headers), 0) {
        Ok(length) => Ok(length),
        Err(error) => Err("invalid Content-Length header: "@ + text::number_error_text(error)),
    }
}

/// `content-length`, or zero when the request declares none.
pub fn content_length_of(headers: &str) -> (length: Result<usize, String>)
    ensures
        match length {
            Ok(n) => content_length(headers@) == Ok::<nat, Seq<char>>(n as nat),
            Err(message) => content_length(headers@) == Err::<nat, Seq<char>>(message@),
        },
{
    let all = chars_of(headers);
    let found = lines_of(all.as_slice());
    let mut length: usize = 0;
    let mut at: usize = 0;
    assert(text::spelled(found@).skip(0) =~= text::spelled(found@));
    while at < found.len()
        invariant
            at <= found@.len(),
            text::spelled(found@) == text::lines(headers@),
            declared_length(text::spelled(found@).skip(at as int), length as nat)
                == declared_length(text::lines(headers@), 0),
        decreases found@.len() - at,
    {
        let line = found[at].as_slice();
        proof {
            let left = text::spelled(found@).skip(at as int);
            assert(left[0] == line@);
            assert(left.skip(1) =~= text::spelled(found@).skip(at + 1));
        }
        if let Some(value) = length_value(line) {
            match parse_number(value.as_slice(), usize::MAX as u64) {
                Ok(declared) => {
                    proof {
                        text::number_within(value@, usize::MAX as nat);
                    }
                    length = declared as usize;
                },
                Err(error) => {
                    let mut message = "invalid Content-Length header: ".to_owned();
                    message.append(error.text());
                    return Err(message);
                },
            }
        }
        at = at + 1;
    }
    Ok(length)
}

/// The value of a `content-length` header, if that is what a line holds.
fn length_value(line: &[char]) -> (value: Option<Vec<char>>)
    ensures
        match value {
            Some(text) => length_header(line@) == Some(text@),
            None => length_header(line@) is None,
        },
{
    let colon = find(line, 0, ':');
    assert(line@.skip(0) =~= line@);
    if colon == line.len() {
        return None;
    }
    let name = cut(line, 0, colon);
    assert(name@ =~= line@.take(colon as int));
    proof {
        reveal_strlit("content-length");
        assert(text::lowered("content-length"@) =~= "content-length"@);
    }
    if !is_word_ignoring_case(name.as_slice(), "content-length") {
        return None;
    }
    let rest = cut(line, colon + 1, line.len());
    assert(rest@ =~= line@.skip(colon + 1));
    Some(trim(rest.as_slice()))
}

/// The reason phrase for a status; `Unknown` for the ones not listed.
pub open spec fn reason(status: u16) -> Seq<char> {
    match status {
        200 => "OK"@,
        201 => "Created"@,
        202 => "Accepted"@,
        204 => "No Content"@,
        400 => "Bad Request"@,
        401 => "Unauthorized"@,
        403 => "Forbidden"@,
        404 => "Not Found"@,
        405 => "Method Not Allowed"@,
        409 => "Conflict"@,
        413 => "Content Too Large"@,
        422 => "Unprocessable Content"@,
        429 => "Too Many Requests"@,
        500 => "Internal Server Error"@,
        501 => "Not Implemented"@,
        503 => "Service Unavailable"@,
        _ => "Unknown"@,
    }
}

/// Reason phrases for the statuses a daemon on this framework is likely to
/// answer with. `Unknown` is a legal reason phrase too, and nobody parses it:
/// the status code is the answer.
pub fn reason_phrase(status: u16) -> (phrase: &'static str)
    ensures
        phrase@ == reason(status),
{
    match status {
        200 => "OK",
        201 => "Created",
        202 => "Accepted",
        204 => "No Content",
        400 => "Bad Request",
        401 => "Unauthorized",
        403 => "Forbidden",
        404 => "Not Found",
        405 => "Method Not Allowed",
        409 => "Conflict",
        413 => "Content Too Large",
        422 => "Unprocessable Content",
        429 => "Too Many Requests",
        500 => "Internal Server Error",
        501 => "Not Implemented",
        503 => "Service Unavailable",
        _ => "Unknown",
    }
}

/// The header block of a response whose body is `length` bytes long.
pub open spec fn response_head(status: u16, length: nat) -> Seq<char> {
    "HTTP/1.1 "@ + text::decimal(status as nat) + " "@ + reason(status)
        + "\r\ncontent-type: application/json\r\ncontent-length: "@ + text::decimal(length)
        + "\r\nconnection: close\r\n\r\n"@
}

/// A whole response: the header block, which declares the body's length in
/// bytes, and then the body.
pub open spec fn response(status: u16, body: Seq<char>) -> Seq<char> {
    response_head(status, utf8::encode_utf8(body).len()) + body
}

/// A reply as the bytes of an HTTP response.
pub fn format_response(reply: &Reply) -> (framed: String)
    ensures
        framed@ == response(reply.status, reply.body@),
{
    let length = reply.body.as_str().as_bytes().len();
    let mut framed = "HTTP/1.1 ".to_owned();
    framed.append(decimal_text(reply.status as u128).as_str());
    framed.append(" ");
    framed.append(reason_phrase(reply.status));
    framed.append("\r\ncontent-type: application/json\r\ncontent-length: ");
    framed.append(decimal_text(length as u128).as_str());
    framed.append("\r\nconnection: close\r\n\r\n");
    framed.append(reply.body.as_str());
    framed
}

/// A request that was read whole.
#[derive(Debug)]
pub struct Request {
    /// Its first line.
    pub line: RequestLine,
    /// Its body; empty where it declared none.
    pub body: String,
}

/// What a [`RequestReader`] wants done next.
#[derive(Debug)]
pub enum ReadAction {
    /// Read one more line of the header block and hand it to
    /// [`RequestReader::line`].
    ReadLine,
    /// Read exactly this many bytes and hand them to [`RequestReader::body`].
    ReadBody(usize),
    /// The client only asked whether the daemon is there: close, and say
    /// nothing.
    Probe,
    /// Answer with this failure and close.
    Refuse(FrameworkErrorKind, String),
    /// Answer this request and close.
    Respond(Request),
}

/// What is wanted, over the texts that are meant.
pub enum ReadActionView {
    /// One more line.
    ReadLine,
    /// So many bytes.
    ReadBody(nat),
    /// Silence.
    Probe,
    /// A refusal, in these words.
    Refuse(FrameworkErrorKind, Seq<char>),
    /// An answer to this request.
    Respond(RequestLineView, Seq<char>),
}

impl View for ReadAction {
    type V = ReadActionView;

    open spec fn view(&self) -> ReadActionView {
        match *self {
            ReadAction::ReadLine => ReadActionView::ReadLine,
            ReadAction::ReadBody(length) => ReadActionView::ReadBody(length as nat),
            ReadAction::Probe => ReadActionView::Probe,
            ReadAction::Refuse(kind, message) => ReadActionView::Refuse(kind, message@),
            ReadAction::Respond(request) => ReadActionView::Respond(request.line@, request.body@),
        }
    }
}

/// How far a connection has been read.
#[derive(Debug, Clone, Copy, PartialEq, Eq, Structural)]
pub enum ReadStage {
    /// The header block is not complete.
    Headers,
    /// The header block is complete and this many bytes of body follow.
    Body(usize),
    /// There is nothing left to read.
    Done,
}

/// What a reader has seen of its connection.
#[verifier::ext_equal]
pub struct ReaderView {
    /// The ceiling on the header block, in bytes.
    pub max_header_bytes: nat,
    /// The ceiling on the body, in bytes.
    pub max_body_bytes: nat,
    /// The header block as far as it has been read.
    pub headers: Seq<char>,
    /// How far the connection has been read.
    pub stage: ReadStage,
}

/// What follows once the body is there: it has to be text, and the header
/// block has to start with a request line.
pub open spec fn after_body(headers: Seq<char>, body: Seq<u8>) -> ReadActionView {
    if !utf8::valid_utf8(body) {
        ReadActionView::Refuse(FrameworkErrorKind::InvalidInput, "HTTP body is not valid UTF-8"@)
    } else {
        match request_line(headers) {
            Err(message) => ReadActionView::Refuse(FrameworkErrorKind::InvalidInput, message),
            Ok(line) => ReadActionView::Respond(line, utf8::decode_utf8(body)),
        }
    }
}

/// What follows once the header block is complete: it says how much body there
/// is, and the body has to be within bounds.
pub open spec fn after_headers(headers: Seq<char>, max_body_bytes: nat) -> ReadActionView {
    match content_length(headers) {
        Err(message) => ReadActionView::Refuse(FrameworkErrorKind::InvalidInput, message),
        Ok(length) => if length > max_body_bytes {
            ReadActionView::Refuse(
                FrameworkErrorKind::PayloadTooLarge,
                "HTTP body exceeds maximum size"@,
            )
        } else if length > 0 {
            ReadActionView::ReadBody(length)
        } else {
            after_body(headers, seq![])
        },
    }
}

/// What follows a line of the header block. An empty one is the end of the
/// connection; `\r\n` alone is the end of the header block.
pub open spec fn after_line(reader: ReaderView, line: Seq<char>) -> ReadActionView {
    let headers = reader.headers + line;
    if line.len() == 0 {
        if reader.headers.len() == 0 {
            ReadActionView::Probe
        } else {
            ReadActionView::Refuse(
                FrameworkErrorKind::InvalidInput,
                "client closed connection before completing HTTP request"@,
            )
        }
    } else if line == "\r\n"@ {
        after_headers(headers, reader.max_body_bytes)
    } else if utf8::encode_utf8(headers).len() > reader.max_header_bytes {
        ReadActionView::Refuse(
            FrameworkErrorKind::PayloadTooLarge,
            "HTTP headers exceed maximum size"@,
        )
    } else {
        ReadActionView::ReadLine
    }
}

/// The stage at which a reader waits for what it asked for.
pub open spec fn stage_for(action: ReadActionView) -> ReadStage {
    match action {
        ReadActionView::ReadLine => ReadStage::Headers,
        ReadActionView::ReadBody(length) => ReadStage::Body(length as usize),
        _ => ReadStage::Done,
    }
}

/// One connection, read line by line until the blank line that ends the header
/// block, and then for as many bytes as the header block declared.
///
/// The first thing a new reader wants is a line.
#[derive(Debug)]
pub struct RequestReader {
    max_header_bytes: usize,
    max_body_bytes: usize,
    headers: String,
    stage: ReadStage,
}

impl View for RequestReader {
    type V = ReaderView;

    closed spec fn view(&self) -> ReaderView {
        ReaderView {
            max_header_bytes: self.max_header_bytes as nat,
            max_body_bytes: self.max_body_bytes as nat,
            headers: self.headers@,
            stage: self.stage,
        }
    }
}

impl RequestReader {
    /// A reader that has seen nothing yet.
    pub fn new(max_header_bytes: usize, max_body_bytes: usize) -> (reader: Self)
        ensures
            reader@ == (ReaderView {
                max_header_bytes: max_header_bytes as nat,
                max_body_bytes: max_body_bytes as nat,
                headers: seq![],
                stage: ReadStage::Headers,
            }),
    {
        RequestReader {
            max_header_bytes,
            max_body_bytes,
            headers: String::new(),
            stage: ReadStage::Headers,
        }
    }

    /// Where the reader stands.
    pub fn stage(&self) -> (stage: ReadStage)
        ensures
            stage == self@.stage,
    {
        self.stage
    }

    /// Take the next line of the header block, with its line break; an empty
    /// one when the connection ended.
    pub fn line(&mut self, line: &str) -> (action: ReadAction)
        requires
            old(self)@.stage is Headers,
        ensures
            action@ == after_line(old(self)@, line@),
            final(self)@ == (ReaderView {
                headers: old(self)@.headers + line@,
                stage: stage_for(action@),
                ..old(self)@
            }),
    {
        let fresh = self.headers.as_str().is_empty();
        let ended = line.is_empty();
        self.headers.append(line);
        let action = if ended {
            if fresh {
                ReadAction::Probe
            } else {
                ReadAction::Refuse(
                    FrameworkErrorKind::InvalidInput,
                    "client closed connection before completing HTTP request".to_owned(),
                )
            }
        } else if same_text(line, "\r\n") {
            self.headers_complete()
        } else if self.headers.as_str().as_bytes().len() > self.max_header_bytes {
            ReadAction::Refuse(
                FrameworkErrorKind::PayloadTooLarge,
                "HTTP headers exceed maximum size".to_owned(),
            )
        } else {
            ReadAction::ReadLine
        };
        self.stage = match action {
            ReadAction::ReadLine => ReadStage::Headers,
            ReadAction::ReadBody(length) => ReadStage::Body(length),
            _ => ReadStage::Done,
        };
        action
    }

    /// Take the body.
    pub fn body(&mut self, bytes: Vec<u8>) -> (action: ReadAction)
        requires
            old(self)@.stage == ReadStage::Body(bytes@.len() as usize),
        ensures
            action@ == after_body(old(self)@.headers, bytes@),
            final(self)@ == (ReaderView { stage: ReadStage::Done, ..old(self)@ }),
    {
        self.stage = ReadStage::Done;
        self.body_complete(bytes)
    }

    fn headers_complete(&self) -> (action: ReadAction)
        ensures
            action@ == after_headers(self@.headers, self@.max_body_bytes),
    {
        let length = match content_length_of(self.headers.as_str()) {
            Ok(length) => length,
            Err(message) => {
                return ReadAction::Refuse(FrameworkErrorKind::InvalidInput, message);
            },
        };
        if length > self.max_body_bytes {
            return ReadAction::Refuse(
                FrameworkErrorKind::PayloadTooLarge,
                "HTTP body exceeds maximum size".to_owned(),
            );
        }
        if length > 0 {
            return ReadAction::ReadBody(length);
        }
        self.body_complete(Vec::new())
    }

    fn body_complete(&self, bytes: Vec<u8>) -> (action: ReadAction)
        ensures
            action@ == after_body(self@.headers, bytes@),
    {
        let body = match utf8_text(bytes) {
            Some(body) => body,
            None => {
                return ReadAction::Refuse(
                    FrameworkErrorKind::InvalidInput,
                    "HTTP body is not valid UTF-8".to_owned(),
                );
            },
        };
        match RequestLine::parse(self.headers.as_str()) {
            Ok(line) => ReadAction::Respond(Request { line, body }),
            Err(message) => ReadAction::Refuse(FrameworkErrorKind::InvalidInput, message),
        }
    }
}

/// What one accepted connection amounted to, so the serve loop can tell a
/// failure worth logging from a client that simply asked whether the daemon is
/// there.
#[derive(Debug)]
pub enum ServeOutcome {
    /// A request was answered, whatever HTTP status it got.
    Answered,
    /// A connect-and-drop reachability probe. Silent by construction.
    Probe,
    /// The connection failed. `context` names the request when one was parsed,
    /// because `request failed: Broken pipe` with no method and no path is not
    /// a diagnosis.
    Failed {
        /// `METHOD /path`, when the request line had been read.
        context: Option<String>,
        /// What went wrong.
        error: IoError,
    },
}

impl ServeOutcome {
    /// The connection could not be read.
    pub fn unreadable(error: IoError) -> (outcome: Self)
        ensures
            outcome == (ServeOutcome::Failed { context: None, error }),
    {
        ServeOutcome::Failed { context: None, error }
    }

    /// The request was refused with `message`. Whether the refusal could be
    /// written makes no difference: the reason for it is very often the reason
    /// the peer is no longer reading.
    pub fn refused(message: String) -> (outcome: Self)
        ensures
            outcome matches ServeOutcome::Failed { context, error } && context is None && error
                == (IoError { kind: crate::io::ErrorKind::Other, message }),
    {
        ServeOutcome::Failed { context: None, error: IoError::other(message) }
    }

    /// The request was answered, as far as the answer could be written.
    pub fn answered(request: &RequestLine, written: Result<(), IoError>) -> (outcome: Self)
        ensures
            match written {
                Ok(()) => outcome is Answered,
                Err(error) => outcome matches ServeOutcome::Failed {
                    context: Some(context),
                    error: cause,
                } && context@ == request.method@ + " "@ + request.path@ && cause == error,
            },
    {
        match written {
            Ok(()) => ServeOutcome::Answered,
            Err(error) => ServeOutcome::Failed { context: Some(request.context()), error },
        }
    }
}

/// Lines handed to a reader one after the other, up to the first that it does
/// not answer by asking for another.
pub open spec fn after_lines(reader: ReaderView, more: Seq<Seq<char>>) -> ReadActionView
    decreases more.len(),
{
    if more.len() == 0 {
        ReadActionView::ReadLine
    } else {
        let action = after_line(reader, more[0]);
        if action is ReadLine {
            after_lines(ReaderView { headers: reader.headers + more[0], ..reader }, more.skip(1))
        } else {
            action
        }
    }
}

/// Lines joined into one text.
pub open spec fn joined(parts: Seq<Seq<char>>) -> Seq<char>
    decreases parts.len(),
{
    if parts.len() == 0 {
        seq![]
    } else {
        parts[0] + joined(parts.skip(1))
    }
}

/// Whether a line is one that a header block goes on after.
pub open spec fn goes_on(line: Seq<char>) -> bool {
    line.len() > 0 && line != "\r\n"@
}

/// A connection that ends without a byte is a probe, and only that is: a
/// client that sent anything is answered.
pub proof fn probe_is_a_connection_without_a_byte(reader: ReaderView, line: Seq<char>)
    ensures
        after_line(reader, line) is Probe <==> reader.headers.len() == 0 && line.len() == 0,
{
}

/// A reader asks for another line only while what it holds is within the
/// header ceiling, and never asks for more body than the body ceiling.
pub proof fn reader_stays_within_its_ceilings(reader: ReaderView, line: Seq<char>)
    ensures
        after_line(reader, line) is ReadLine ==> utf8::encode_utf8(reader.headers + line).len()
            <= reader.max_header_bytes,
        after_line(reader, line) matches ReadActionView::ReadBody(length) ==> 0 < length
            <= reader.max_body_bytes,
{
}

/// A prefix of a text takes no more bytes than the text.
pub(crate) proof fn prefix_is_no_longer(left: Seq<char>, right: Seq<char>)
    ensures
        utf8::encode_utf8(left).len() <= utf8::encode_utf8(left + right).len(),
    decreases left.len(),
{
    if left.len() > 0 {
        assert((left + right).drop_first() =~= left.drop_first() + right);
        assert((left + right)[0] == left[0]);
        prefix_is_no_longer(left.drop_first(), right);
    }
}

/// How a request is cut into lines makes no difference within the ceiling: a
/// header block is judged as a whole once its blank line arrives, and a
/// connection that ends before that is refused as truncated.
pub proof fn header_block_is_read_whole(reader: ReaderView, more: Seq<Seq<char>>)
    requires
        more.len() > 0,
        forall|i: int| 0 <= i < more.len() ==> goes_on(#[trigger] more[i]),
        utf8::encode_utf8(reader.headers + joined(more)).len() <= reader.max_header_bytes,
    ensures
        after_lines(reader, more) is ReadLine,
        after_lines(reader, more.push("\r\n"@)) == after_headers(
            reader.headers + joined(more) + "\r\n"@,
            reader.max_body_bytes,
        ),
        after_lines(reader, more.push(seq![])) == ReadActionView::Refuse(
            FrameworkErrorKind::InvalidInput,
            "client closed connection before completing HTTP request"@,
        ),
    decreases more.len(),
{
    reveal_strlit("\r\n");
    let line = more[0];
    assert(goes_on(line));
    let rest = more.skip(1);
    let next = ReaderView { headers: reader.headers + line, ..reader };
    assert(reader.headers + joined(more) =~= next.headers + joined(rest));
    prefix_is_no_longer(next.headers, joined(rest));
    assert(after_line(reader, line) is ReadLine);
    let ended = more.push("\r\n"@);
    let dropped = more.push(seq![]);
    assert(ended.skip(1) =~= rest.push("\r\n"@));
    assert(dropped.skip(1) =~= rest.push(seq![]));
    if rest.len() == 0 {
        assert(joined(rest) =~= seq![]);
        assert(reader.headers + joined(more) =~= next.headers);
        assert(rest.push("\r\n"@).skip(1) =~= seq![]);
        assert(rest.push("\r\n"@)[0] == "\r\n"@);
        assert(rest.push(seq![])[0] =~= seq![]);
        reveal_with_fuel(after_lines, 3);
    } else {
        assert forall|i: int| 0 <= i < rest.len() implies goes_on(#[trigger] rest[i]) by {
            assert(rest[i] == more[i + 1]);
        }
        header_block_is_read_whole(next, rest);
    }
}

/// A version that is spoken is a field.
proof fn version_is_a_field(version: Seq<char>)
    requires
        speaks(version),
    ensures
        is_field(version),
{
    reveal_strlit("HTTP/1.1");
    reveal_strlit("HTTP/1.0");
}

/// Three fields with one blank between them stand on one line.
proof fn request_line_is_one_line(method: Seq<char>, path: Seq<char>, version: Seq<char>)
    requires
        is_field(method),
        is_field(path),
        speaks(version),
    ensures
        text::one_line(method + seq![' '] + path + seq![' '] + version),
{
    version_is_a_field(version);
    let line = method + seq![' '] + path + seq![' '] + version;
    assert forall|i: int| 0 <= i < line.len() implies line[i] != '\n' && line[i] != '\r' by {
        let second = method.len() + 1;
        let third = second + path.len() + 1;
        if i < method.len() {
            assert(line[i] == method[i]);
            assert(!text::is_blank(method[i]));
        } else if i < second {
            assert(line[i] == ' ');
        } else if i < third - 1 {
            assert(line[i] == path[i - second]);
            assert(!text::is_blank(path[i - second]));
        } else if i < third {
            assert(line[i] == ' ');
        } else {
            assert(line[i] == version[i - third]);
            assert(!text::is_blank(version[i - third]));
        }
    }
}

/// Three fields with one blank between them, the last of them a version that
/// is spoken, are read back as the method and path they are.
pub proof fn request_line_reads_back(
    method: Seq<char>,
    path: Seq<char>,
    version: Seq<char>,
    rest: Seq<char>,
)
    requires
        is_field(method),
        is_field(path),
        speaks(version),
    ensures
        request_line(method + seq![' '] + path + seq![' '] + version + seq!['\r', '\n'] + rest)
            == Ok::<RequestLineView, Seq<char>>(
            RequestLineView { method, verb: service::verb_of(method), path },
        ),
{
    version_is_a_field(version);
    let line = method + seq![' '] + path + seq![' '] + version;
    request_line_is_one_line(method, path, version);
    text::lines_of_first_and_rest(line, rest);
    let tail = path + seq![' '] + version;
    assert(line =~= method + seq![' '] + tail);
    text::fields_of_first_and_rest(method, ' ', tail);
    text::fields_of_first_and_rest(path, ' ', version);
    text::fields_of_one(version);
    assert(text::fields(line) =~= seq![method, path, version]);
}

/// The header line that declares a length.
pub open spec fn length_line_of(length: nat) -> Seq<char> {
    "content-length: "@ + text::decimal(length)
}

/// The header line that declares a length stands on one line and is read back.
proof fn length_line_reads_back(length: nat)
    ensures
        text::one_line(length_line_of(length)),
        length_header(length_line_of(length)) == Some(text::decimal(length)),
{
    reveal_strlit("content-length");
    reveal_strlit("content-length: ");
    let digits = text::decimal(length);
    let name = "content-length"@;
    let line = length_line_of(length);
    text::decimal_is_digits(length);
    assert(line =~= name + seq![':', ' '] + digits);
    text::position_unique(line, ':', name.len() as int);
    assert(line.take(name.len() as int) =~= name);
    assert(text::lowered(name) =~= name);
    let value = line.skip(name.len() + 1int);
    assert(value =~= seq![' '] + digits);
    assert(value.skip(1) =~= digits);
    assert(text::is_digit(digits[0]));
    assert(text::is_digit(digits.last()));
    assert(text::trimmed_start(digits) == digits);
    assert(text::trimmed_start(value) == digits);
}

/// The header block of a request that declares its body's length, as a client
/// writes it.
pub open spec fn request_head(
    method: Seq<char>,
    path: Seq<char>,
    version: Seq<char>,
    length: nat,
) -> Seq<char> {
    method + seq![' '] + path + seq![' '] + version + seq!['\r', '\n'] + (length_line_of(length)
        + seq!['\r', '\n'] + seq!['\r', '\n'])
}

/// The lines of that header block, without the blank line that ends it.
pub open spec fn head_lines(
    method: Seq<char>,
    path: Seq<char>,
    version: Seq<char>,
    length: nat,
) -> Seq<Seq<char>> {
    seq![
        method + seq![' '] + path + seq![' '] + version + seq!['\r', '\n'],
        length_line_of(length) + seq!['\r', '\n'],
    ]
}

/// A header block as a client writes it is its lines and a blank one, and it
/// goes on after each of the lines.
pub proof fn head_is_its_lines(
    method: Seq<char>,
    path: Seq<char>,
    version: Seq<char>,
    length: nat,
)
    ensures
        request_head(method, path, version, length) == joined(
            head_lines(method, path, version, length),
        ) + "\r\n"@,
        forall|i: int|
            0 <= i < head_lines(method, path, version, length).len() ==> goes_on(
                #[trigger] head_lines(method, path, version, length)[i],
            ),
{
    reveal_strlit("\r\n");
    reveal_strlit("content-length: ");
    let lines = head_lines(method, path, version, length);
    reveal_with_fuel(joined, 3);
    assert(lines.skip(1) =~= seq![lines[1]]);
    assert(lines.skip(1).skip(1) =~= Seq::<Seq<char>>::empty());
    assert(joined(lines) =~= lines[0] + lines[1]);
    assert(request_head(method, path, version, length) =~= joined(lines) + "\r\n"@);
}

/// Whether a text can stand as one field of a request line.
pub open spec fn is_field(field: Seq<char>) -> bool {
    &&& field.len() > 0
    &&& forall|i: int| 0 <= i < field.len() ==> !text::is_blank(#[trigger] field[i])
}

/// What a client writes is what is read: a request with a method and a path
/// that are fields, a version that is spoken and a declared length is read for
/// that many bytes, and handed on with the method, the path and the body that
/// the client meant. A method that starts with `content-length:`, in whatever
/// case, is left out, for the line that starts with it reads as that header.
pub proof fn a_framed_request_reads_back(
    method: Seq<char>,
    path: Seq<char>,
    version: Seq<char>,
    body: Seq<char>,
    max_body_bytes: nat,
)
    requires
        is_field(method),
        text::position(method, ':') < method.len() ==> text::lowered(
            method.take(text::position(method, ':')),
        ) != "content-length"@,
        is_field(path),
        speaks(version),
        utf8::encode_utf8(body).len() <= max_body_bytes,
        utf8::encode_utf8(body).len() <= usize::MAX,
    ensures
        ({
            let length = utf8::encode_utf8(body).len();
            let headers = request_head(method, path, version, length);
            let line = RequestLineView { method, verb: service::verb_of(method), path };
            &&& after_headers(headers, max_body_bytes) == if length > 0 {
                ReadActionView::ReadBody(length)
            } else {
                ReadActionView::Respond(line, body)
            }
            &&& after_body(headers, utf8::encode_utf8(body)) == ReadActionView::Respond(line, body)
        }),
{
    let crlf = seq!['\r', '\n'];
    let length = utf8::encode_utf8(body).len();
    let first = method + seq![' '] + path + seq![' '] + version;
    let rest = length_line_of(length) + crlf + crlf;
    let headers = request_head(method, path, version, length);
    request_line_reads_back(method, path, version, rest);
    request_line_is_one_line(method, path, version);
    length_line_reads_back(length);
    text::lines_of_first_and_rest(first, rest);
    text::lines_of_first_and_rest(length_line_of(length), crlf);
    blank_line_is_a_line();
    let found = seq![first, length_line_of(length), seq![]];
    assert(text::lines(headers) =~= found);
    text::decimal_reads_back(length, usize::MAX as nat);
    assert(length_header(first) is None) by {
        reveal_strlit("content-length");
        text::position_is_first(first, ':');
        let colon = text::position(first, ':');
        assert(forall|i: int| 0 <= i < method.len() ==> first[i] == method[i]);
        assert(first[method.len() as int] == ' ');
        text::position_is_first(method, ':');
        if text::position(method, ':') < method.len() {
            assert(first[text::position(method, ':')] == ':');
            assert(colon == text::position(method, ':'));
            assert(first.take(colon) =~= method.take(colon));
        } else if colon < first.len() {
            assert(colon > method.len());
            let name = first.take(colon);
            assert(name[method.len() as int] == ' ');
            assert(text::lowered(name)[method.len() as int] == ' ');
            assert(forall|i: int|
                0 <= i < "content-length"@.len() ==> "content-length"@[i] != ' ');
        }
    }
    assert(found.skip(1) =~= seq![length_line_of(length), seq![]]);
    assert(found.skip(1).skip(1) =~= seq![Seq::<char>::empty()]);
    assert(found.skip(1).skip(1).skip(1) =~= Seq::<Seq<char>>::empty());
    reveal_with_fuel(declared_length, 4);
    assert(content_length(headers) == Ok::<nat, Seq<char>>(length));
    utf8::encode_utf8_valid_utf8(body);
    utf8::encode_utf8_decode_utf8(body);
    if length == 0 {
        assert(utf8::encode_utf8(body) =~= seq![]);
    }
}

/// A blank line alone is one line, with nothing on it.
proof fn blank_line_is_a_line()
    ensures
        text::lines(seq!['\r', '\n']) == seq![Seq::<char>::empty()],
{
    let none = Seq::<char>::empty();
    assert(none + seq!['\r', '\n'] + none =~= seq!['\r', '\n']);
    text::lines_of_first_and_rest(none, none);
    assert(text::lines(none) =~= seq![]);
    assert(seq![none] + Seq::<Seq<char>>::empty() =~= seq![none]);
}

/// A client that reads a response finds in its header block the length of the
/// body that follows, in bytes.
pub proof fn response_head_declares_the_length(status: u16, length: nat)
    requires
        length <= usize::MAX,
    ensures
        content_length(response_head(status, length)) == Ok::<nat, Seq<char>>(length),
{
    reveal_strlit("HTTP/1.1 ");
    reveal_strlit(" ");
    reveal_strlit("\r\ncontent-type: application/json\r\ncontent-length: ");
    reveal_strlit("\r\nconnection: close\r\n\r\n");
    reveal_strlit("content-length");
    reveal_strlit("content-length: ");
    let crlf = seq!['\r', '\n'];
    let name = "content-length"@;
    let status_line = "HTTP/1.1 "@ + text::decimal(status as nat) + " "@ + reason(status);
    let type_line = "\r\ncontent-type: application/json\r\ncontent-length: "@.subrange(2, 32);
    let length_line = length_line_of(length);
    let close_line = "\r\nconnection: close\r\n\r\n"@.subrange(2, 19);
    let last = crlf;
    let fourth = close_line + crlf + last;
    let third = length_line + crlf + fourth;
    let second = type_line + crlf + third;
    assert(response_head(status, length) =~= status_line + crlf + second);

    text::decimal_is_digits(status as nat);
    text::decimal_is_digits(length);
    reason_is_plain(status);
    assert(text::one_line(status_line));
    length_line_reads_back(length);
    text::lines_of_first_and_rest(status_line, second);
    text::lines_of_first_and_rest(type_line, third);
    text::lines_of_first_and_rest(length_line, fourth);
    text::lines_of_first_and_rest(close_line, last);
    blank_line_is_a_line();
    let found = seq![status_line, type_line, length_line, close_line, seq![]];
    assert(text::lines(response_head(status, length)) =~= found);

    text::decimal_reads_back(length, usize::MAX as nat);
    assert(length_header(status_line) is None) by {
        assert(forall|i: int| 0 <= i < status_line.len() ==> status_line[i] != ':');
        text::position_unique(status_line, ':', status_line.len() as int);
    }
    assert(length_header(type_line) is None) by {
        text::position_unique(type_line, ':', 12);
        assert(text::lowered(type_line.take(12)).len() != name.len());
    }
    assert(length_header(close_line) is None) by {
        text::position_unique(close_line, ':', 10);
        assert(text::lowered(close_line.take(10)).len() != name.len());
    }
    assert(found.skip(1) =~= seq![type_line, length_line, close_line, seq![]]);
    assert(found.skip(1).skip(1) =~= seq![length_line, close_line, seq![]]);
    assert(found.skip(1).skip(1).skip(1) =~= seq![close_line, seq![]]);
    assert(found.skip(1).skip(1).skip(1).skip(1) =~= seq![Seq::<char>::empty()]);
    assert(found.skip(1).skip(1).skip(1).skip(1).skip(1) =~= Seq::<Seq<char>>::empty());
    reveal_with_fuel(declared_length, 6);
}

/// A reason phrase stands on one line and holds no colon.
proof fn reason_is_plain(status: u16)
    ensures
        text::one_line(reason(status)),
        forall|i: int| 0 <= i < reason(status).len() ==> reason(status)[i] != ':',
{
    reveal_strlit("OK");
    reveal_strlit("Created");
    reveal_strlit("Accepted");
    reveal_strlit("No Content");
    reveal_strlit("Bad Request");
    reveal_strlit("Unauthorized");
    reveal_strlit("Forbidden");
    reveal_strlit("Not Found");
    reveal_strlit("Method Not Allowed");
    reveal_strlit("Conflict");
    reveal_strlit("Content Too Large");
    reveal_strlit("Unprocessable Content");
    reveal_strlit("Too Many Requests");
    reveal_strlit("Internal Server Error");
    reveal_strlit("Not Implemented");
    reveal_strlit("Service Unavailable");
    reveal_strlit("Unknown");
}

/// A line is a `content-length` header by the name before its first colon, in
/// whatever case, and what it holds is what follows the colon, without the
/// blanks around it. A line without a colon is no header.
pub proof fn a_length_header_is_known_by_its_name(name: Seq<char>, value: Seq<char>)
    requires
        forall|i: int| 0 <= i < name.len() ==> name[i] != ':',
    ensures
        text::lowered(name) == "content-length"@ ==> length_header(name + seq![':'] + value)
            == Some(text::trimmed(value)),
        text::lowered(name) != "content-length"@ ==> length_header(name + seq![':'] + value) is None,
        length_header(name) is None,
{
    let line = name + seq![':'] + value;
    text::position_unique(line, ':', name.len() as int);
    text::position_unique(name, ':', name.len() as int);
    assert(line.take(name.len() as int) =~= name);
    assert(line.skip(name.len() + 1int) =~= value);
}

/// What header lines declare is what the first of them declare and then the
/// rest.
proof fn declared_length_goes_on(left: Seq<Seq<char>>, right: Seq<Seq<char>>, so_far: nat)
    ensures
        declared_length(left + right, so_far) == match declared_length(left, so_far) {
            Err(error) => Err::<nat, NumberError>(error),
            Ok(length) => declared_length(right, length),
        },
    decreases left.len(),
{
    if left.len() == 0 {
        assert(left + right =~= right);
    } else {
        assert((left + right).skip(1) =~= left.skip(1) + right);
        match length_header(left[0]) {
            None => declared_length_goes_on(left.skip(1), right, so_far),
            Some(value) => if let Ok(length) = text::number(value, usize::MAX as nat) {
                declared_length_goes_on(left.skip(1), right, length);
            },
        }
    }
}

/// Lines that declare nothing leave a length as it is.
proof fn undeclared_lines_change_nothing(lines: Seq<Seq<char>>, so_far: nat)
    requires
        forall|i: int| 0 <= i < lines.len() ==> length_header(#[trigger] lines[i]) is None,
    ensures
        declared_length(lines, so_far) == Ok::<nat, NumberError>(so_far),
    decreases lines.len(),
{
    if lines.len() > 0 {
        let rest = lines.skip(1);
        assert(length_header(lines[0]) is None);
        assert forall|i: int| 0 <= i < rest.len() implies length_header(
            #[trigger] rest[i],
        ) is None by {
            assert(rest[i] == lines[i + 1]);
        }
        undeclared_lines_change_nothing(rest, so_far);
    }
}

/// Whether a length that a line declares, if it declares one, can be read.
pub open spec fn declares_no_fault(line: Seq<char>) -> bool {
    length_header(line) matches Some(value) ==> text::number(value, usize::MAX as nat) is Ok
}

/// Lines without a fault declare some length.
proof fn faultless_lines_are_read(lines: Seq<Seq<char>>, so_far: nat)
    requires
        forall|i: int| 0 <= i < lines.len() ==> declares_no_fault(#[trigger] lines[i]),
    ensures
        declared_length(lines, so_far) is Ok,
    decreases lines.len(),
{
    if lines.len() > 0 {
        let rest = lines.skip(1);
        assert(declares_no_fault(lines[0]));
        assert forall|i: int| 0 <= i < rest.len() implies declares_no_fault(#[trigger] rest[i]) by {
            assert(rest[i] == lines[i + 1]);
        }
        match length_header(lines[0]) {
            None => faultless_lines_are_read(rest, so_far),
            Some(value) => faultless_lines_are_read(
                rest,
                text::number(value, usize::MAX as nat)->Ok_0,
            ),
        }
    }
}

/// A `content-length` header counts wherever it stands among the lines of a
/// header block, however many there are, and the last one counts.
pub proof fn a_declared_length_counts_wherever_it_stands(
    headers: Seq<char>,
    before: Seq<Seq<char>>,
    name: Seq<char>,
    value: Seq<char>,
    after: Seq<Seq<char>>,
    length: nat,
)
    requires
        text::lines(headers) == before + seq![name + seq![':'] + value] + after,
        forall|i: int| 0 <= i < before.len() ==> declares_no_fault(#[trigger] before[i]),
        forall|i: int| 0 <= i < name.len() ==> name[i] != ':',
        text::lowered(name) == "content-length"@,
        text::number(text::trimmed(value), usize::MAX as nat) == Ok::<nat, NumberError>(length),
        forall|i: int| 0 <= i < after.len() ==> length_header(#[trigger] after[i]) is None,
    ensures
        content_length(headers) == Ok::<nat, Seq<char>>(length),
{
    let line = name + seq![':'] + value;
    a_length_header_is_known_by_its_name(name, value);
    faultless_lines_are_read(before, 0);
    declared_length_goes_on(before + seq![line], after, 0);
    declared_length_goes_on(before, seq![line], 0);
    assert(seq![line].skip(1) =~= Seq::<Seq<char>>::empty());
    reveal_with_fuel(declared_length, 2);
    undeclared_lines_change_nothing(after, length);
}

/// A header block in which no line is a `content-length` header declares no
/// body, however many lines it has.
pub proof fn no_declared_length_is_zero(headers: Seq<char>)
    requires
        forall|i: int|
            0 <= i < text::lines(headers).len() ==> length_header(
                #[trigger] text::lines(headers)[i],
            ) is None,
    ensures
        content_length(headers) == Ok::<nat, Seq<char>>(0),
{
    undeclared_lines_change_nothing(text::lines(headers), 0);
}

/// The first `content-length` header that is no number is what is wrong with a
/// header block, whatever else it declares.
pub proof fn a_malformed_length_is_never_passed_over(
    headers: Seq<char>,
    before: Seq<Seq<char>>,
    name: Seq<char>,
    value: Seq<char>,
    after: Seq<Seq<char>>,
    error: NumberError,
)
    requires
        text::lines(headers) == before + seq![name + seq![':'] + value] + after,
        forall|i: int| 0 <= i < before.len() ==> declares_no_fault(#[trigger] before[i]),
        forall|i: int| 0 <= i < name.len() ==> name[i] != ':',
        text::lowered(name) == "content-length"@,
        text::number(text::trimmed(value), usize::MAX as nat) == Err::<nat, NumberError>(error),
    ensures
        content_length(headers) == Err::<nat, Seq<char>>(
            "invalid Content-Length header: "@ + text::number_error_text(error),
        ),
{
    let line = name + seq![':'] + value;
    a_length_header_is_known_by_its_name(name, value);
    faultless_lines_are_read(before, 0);
    declared_length_goes_on(before + seq![line], after, 0);
    declared_length_goes_on(before, seq![line], 0);
}

/// The first line of a header block is a request line exactly where it has
/// three fields and the last is `HTTP/1.1` or `HTTP/1.0`. The first field is
/// the method and the second the path, and each way to fail is named.
pub proof fn a_request_line_is_three_fields(headers: Seq<char>)
    ensures
        text::lines(headers).len() == 0 ==> request_line(headers) == Err::<
            RequestLineView,
            Seq<char>,
        >("HTTP request line is missing"@),
        text::lines(headers).len() > 0 ==> {
            let parts = text::fields(text::lines(headers)[0]);
            &&& request_line(headers) is Ok <==> parts.len() == 3 && (parts[2] == "HTTP/1.1"@
                || parts[2] == "HTTP/1.0"@)
            &&& request_line(headers) matches Ok(line) ==> {
                &&& line.method == parts[0]
                &&& line.path == parts[1]
                &&& line.verb is Get <==> parts[0] == "GET"@
                &&& line.verb is Post <==> parts[0] == "POST"@
            }
            &&& request_line(headers) matches Err(message) ==> {
                &&& parts.len() == 0 ==> message == "HTTP method is missing"@
                &&& parts.len() == 1 ==> message == "HTTP path is missing"@
                &&& parts.len() == 2 ==> message == "HTTP version is missing"@
                &&& parts.len() == 3 ==> message == "unsupported HTTP version: "@ + parts[2]
                &&& parts.len() > 3 ==> message == "HTTP request line has too many fields"@
            }
        },
{
    service::verbs_are_told_apart_by_their_tokens(text::fields(text::lines(headers)[0])[0]);
}

/// The rest of a header block goes unread once its length is known to be
/// wrong or too much. A length within bounds is asked for to the byte, and
/// without one the request is whole.
pub proof fn a_body_is_read_as_declared(headers: Seq<char>, max_body_bytes: nat)
    ensures
        match content_length(headers) {
            Err(message) => after_headers(headers, max_body_bytes) == ReadActionView::Refuse(
                FrameworkErrorKind::InvalidInput,
                message,
            ),
            Ok(length) => {
                &&& length > max_body_bytes ==> after_headers(headers, max_body_bytes)
                    == ReadActionView::Refuse(
                    FrameworkErrorKind::PayloadTooLarge,
                    "HTTP body exceeds maximum size"@,
                )
                &&& 0 < length <= max_body_bytes ==> after_headers(headers, max_body_bytes)
                    == ReadActionView::ReadBody(length)
                &&& length == 0 ==> after_headers(headers, max_body_bytes) == after_body(
                    headers,
                    seq![],
                )
            },
        },
{
}

/// A request is handed on exactly where its body is text and its first line is
/// a request line: with that line, and with a body that encodes to the bytes
/// that were read. The body is looked at first.
pub proof fn a_whole_request_is_handed_on_as_it_is(headers: Seq<char>, bytes: Seq<u8>)
    ensures
        !utf8::valid_utf8(bytes) ==> after_body(headers, bytes) == ReadActionView::Refuse(
            FrameworkErrorKind::InvalidInput,
            "HTTP body is not valid UTF-8"@,
        ),
        utf8::valid_utf8(bytes) ==> match request_line(headers) {
            Ok(line) => after_body(headers, bytes) matches ReadActionView::Respond(read, body)
                && read == line && utf8::encode_utf8(body) == bytes,
            Err(message) => after_body(headers, bytes) == ReadActionView::Refuse(
                FrameworkErrorKind::InvalidInput,
                message,
            ),
        },
{
    if utf8::valid_utf8(bytes) {
        utf8::decode_utf8_encode_utf8(bytes);
    }
}

/// A reader goes on for as long as lines come, up to the blank one, and its
/// ceiling on them is kept to the byte: the block may be as long as that and
/// no longer. A connection that ends before the blank line is truncated.
pub proof fn a_header_block_is_read_to_its_blank_line(reader: ReaderView, line: Seq<char>)
    ensures
        line.len() == 0 && reader.headers.len() > 0 ==> after_line(reader, line)
            == ReadActionView::Refuse(
            FrameworkErrorKind::InvalidInput,
            "client closed connection before completing HTTP request"@,
        ),
        line == seq!['\r', '\n'] ==> after_line(reader, line) == after_headers(
            reader.headers + line,
            reader.max_body_bytes,
        ),
        line.len() > 0 && line != seq!['\r', '\n'] ==> {
            &&& after_line(reader, line) is ReadLine <==> utf8::encode_utf8(
                reader.headers + line,
            ).len() <= reader.max_header_bytes
            &&& !(after_line(reader, line) is ReadLine) ==> after_line(reader, line)
                == ReadActionView::Refuse(
                FrameworkErrorKind::PayloadTooLarge,
                "HTTP headers exceed maximum size"@,
            )
        },
{
    reveal_strlit("\r\n");
    assert("\r\n"@ =~= seq!['\r', '\n']);
}

/// A reader waits for what it asked for, and for nothing once it is done.
pub proof fn a_reader_waits_for_what_it_asked_for(
    length: usize,
    kind: FrameworkErrorKind,
    words: Seq<char>,
    line: RequestLineView,
)
    ensures
        stage_for(ReadActionView::ReadLine) is Headers,
        stage_for(ReadActionView::ReadBody(length as nat)) == ReadStage::Body(length),
        stage_for(ReadActionView::Probe) is Done,
        stage_for(ReadActionView::Refuse(kind, words)) is Done,
        stage_for(ReadActionView::Respond(line, words)) is Done,
{
}

/// What a reader wants done is what it says, to the letter.
pub proof fn a_read_action_means_what_it_says(
    length: usize,
    kind: FrameworkErrorKind,
    message: String,
    request: Request,
)
    ensures
        ReadAction::ReadLine@ is ReadLine,
        ReadAction::ReadBody(length)@ == ReadActionView::ReadBody(length as nat),
        ReadAction::Probe@ is Probe,
        ReadAction::Refuse(kind, message)@ == ReadActionView::Refuse(kind, message@),
        ReadAction::Respond(request)@ matches ReadActionView::Respond(line, body) && line.method
            == request.line.method@ && line.verb == request.line.verb && line.path
            == request.line.path@ && body == request.body@,
{
}

/// The lines of a header block, each ended, and the blank line that ends them
/// all.
pub open spec fn header_block(lines: Seq<Seq<char>>) -> Seq<char>
    decreases lines.len(),
{
    if lines.len() == 0 {
        seq!['\r', '\n']
    } else {
        lines[0] + seq!['\r', '\n'] + header_block(lines.skip(1))
    }
}

/// A header block is read back line by line.
pub proof fn a_header_block_is_its_lines(lines: Seq<Seq<char>>)
    requires
        forall|i: int| 0 <= i < lines.len() ==> text::one_line(#[trigger] lines[i]),
    ensures
        text::lines(header_block(lines)) == lines.push(seq![]),
    decreases lines.len(),
{
    if lines.len() == 0 {
        blank_line_is_a_line();
        assert(lines.push(seq![]) =~= seq![Seq::<char>::empty()]);
    } else {
        let rest = lines.skip(1);
        assert forall|i: int| 0 <= i < rest.len() implies text::one_line(#[trigger] rest[i]) by {
            assert(rest[i] == lines[i + 1]);
        }
        assert(text::one_line(lines[0]));
        a_header_block_is_its_lines(rest);
        text::lines_of_first_and_rest(lines[0], header_block(rest));
        assert(seq![lines[0]] + rest.push(seq![]) =~= lines.push(seq![]));
    }
}

/// Whether a line can stand beside the length in a header block: on one line,
/// and no `content-length` header itself.
pub open spec fn is_other_header(line: Seq<char>) -> bool {
    text::one_line(line) && length_header(line) is None
}

/// The lines of a request: its first, and a length among any other headers.
pub open spec fn request_lines(
    first: Seq<char>,
    before: Seq<Seq<char>>,
    length: nat,
    after: Seq<Seq<char>>,
) -> Seq<Seq<char>> {
    seq![first] + before + seq![length_line_of(length)] + after
}

/// The first line of a request is no header, unless its method makes it one.
proof fn a_request_line_is_no_length_header(
    method: Seq<char>,
    path: Seq<char>,
    version: Seq<char>,
)
    requires
        is_field(method),
        text::position(method, ':') < method.len() ==> text::lowered(
            method.take(text::position(method, ':')),
        ) != "content-length"@,
    ensures
        length_header(method + seq![' '] + path + seq![' '] + version) is None,
{
    let first = method + seq![' '] + path + seq![' '] + version;
    reveal_strlit("content-length");
    text::position_is_first(first, ':');
    let colon = text::position(first, ':');
    assert(forall|i: int| 0 <= i < method.len() ==> first[i] == method[i]);
    assert(first[method.len() as int] == ' ');
    text::position_is_first(method, ':');
    if text::position(method, ':') < method.len() {
        assert(first[text::position(method, ':')] == ':');
        assert(colon == text::position(method, ':'));
        assert(first.take(colon) =~= method.take(colon));
    } else if colon < first.len() {
        assert(colon > method.len());
        let name = first.take(colon);
        assert(name[method.len() as int] == ' ');
        assert(text::lowered(name)[method.len() as int] == ' ');
        assert(forall|i: int| 0 <= i < "content-length"@.len() ==> "content-length"@[i] != ' ');
    }
}

/// What a client writes is what is read, whatever other headers it sends and
/// however many: the length counts wherever it stands among them, the body is
/// read for that many bytes, and the request is handed on with the method, the
/// path and the body that the client meant.
pub proof fn a_request_reads_back_among_any_headers(
    method: Seq<char>,
    path: Seq<char>,
    version: Seq<char>,
    before: Seq<Seq<char>>,
    after: Seq<Seq<char>>,
    body: Seq<char>,
    max_body_bytes: nat,
)
    requires
        is_field(method),
        text::position(method, ':') < method.len() ==> text::lowered(
            method.take(text::position(method, ':')),
        ) != "content-length"@,
        is_field(path),
        speaks(version),
        forall|i: int| 0 <= i < before.len() ==> is_other_header(#[trigger] before[i]),
        forall|i: int| 0 <= i < after.len() ==> is_other_header(#[trigger] after[i]),
        utf8::encode_utf8(body).len() <= max_body_bytes,
        utf8::encode_utf8(body).len() <= usize::MAX,
    ensures
        ({
            let length = utf8::encode_utf8(body).len();
            let first = method + seq![' '] + path + seq![' '] + version;
            let headers = header_block(request_lines(first, before, length, after));
            let line = RequestLineView { method, verb: service::verb_of(method), path };
            &&& content_length(headers) == Ok::<nat, Seq<char>>(length)
            &&& length > 0 ==> after_headers(headers, max_body_bytes) == ReadActionView::ReadBody(
                length,
            )
            &&& length == 0 ==> after_headers(headers, max_body_bytes) == ReadActionView::Respond(
                line,
                body,
            )
            &&& after_body(headers, utf8::encode_utf8(body)) == ReadActionView::Respond(line, body)
        }),
{
    let length = utf8::encode_utf8(body).len();
    let first = method + seq![' '] + path + seq![' '] + version;
    let lines = request_lines(first, before, length, after);
    let headers = header_block(lines);
    let rest = lines.skip(1);
    assert(lines[0] == first);
    request_line_reads_back(method, path, version, header_block(rest));
    request_line_is_one_line(method, path, version);
    length_line_reads_back(length);
    assert forall|i: int| 0 <= i < lines.len() implies text::one_line(#[trigger] lines[i]) by {
        let at = i - 1;
        if 0 <= at < before.len() {
            assert(lines[i] == before[at]);
            assert(is_other_header(before[at]));
        } else if at > before.len() {
            assert(lines[i] == after[at - before.len() - 1]);
            assert(is_other_header(after[at - before.len() - 1]));
        } else if at == before.len() {
            assert(lines[i] == length_line_of(length));
        }
    }
    a_header_block_is_its_lines(lines);
    text::decimal_reads_back(length, usize::MAX as nat);

    reveal_strlit("content-length");
    reveal_strlit("content-length: ");
    let digits = text::decimal(length);
    let name = "content-length"@;
    let value = seq![' '] + digits;
    let left = seq![first] + before;
    let right = after.push(seq![]);
    assert(length_line_of(length) =~= name + seq![':'] + value);
    assert(lines.push(seq![]) =~= left + seq![name + seq![':'] + value] + right);
    assert(text::lowered(name) =~= name);
    text::decimal_is_digits(length);
    assert(text::is_digit(digits[0]) && text::is_digit(digits.last()));
    text::trimming_takes_the_blanks_at_the_ends(seq![' '], digits, seq![]);
    assert(seq![' '] + digits + Seq::<char>::empty() =~= value);
    a_request_line_is_no_length_header(method, path, version);
    assert forall|i: int| 0 <= i < left.len() implies declares_no_fault(#[trigger] left[i]) by {
        if i > 0 {
            assert(left[i] == before[i - 1]);
            assert(is_other_header(before[i - 1]));
        }
    }
    assert forall|i: int| 0 <= i < right.len() implies length_header(
        #[trigger] right[i],
    ) is None by {
        if i < after.len() {
            assert(right[i] == after[i]);
            assert(is_other_header(after[i]));
        } else {
            a_length_header_is_known_by_its_name(seq![], seq![]);
        }
    }
    a_declared_length_counts_wherever_it_stands(headers, left, name, value, right, length);
    utf8::encode_utf8_valid_utf8(body);
    utf8::encode_utf8_decode_utf8(body);
    if length == 0 {
        assert(utf8::encode_utf8(body) =~= seq![]);
    }
}

/// The statuses that have a phrase of their own, and that all others share one.
pub proof fn reason_phrases_by_status(status: u16)
    ensures
        status == 200 ==> reason(status) == "OK"@,
        status == 201 ==> reason(status) == "Created"@,
        status == 202 ==> reason(status) == "Accepted"@,
        status == 204 ==> reason(status) == "No Content"@,
        status == 400 ==> reason(status) == "Bad Request"@,
        status == 401 ==> reason(status) == "Unauthorized"@,
        status == 403 ==> reason(status) == "Forbidden"@,
        status == 404 ==> reason(status) == "Not Found"@,
        status == 405 ==> reason(status) == "Method Not Allowed"@,
        status == 409 ==> reason(status) == "Conflict"@,
        status == 413 ==> reason(status) == "Content Too Large"@,
        status == 422 ==> reason(status) == "Unprocessable Content"@,
        status == 429 ==> reason(status) == "Too Many Requests"@,
        status == 500 ==> reason(status) == "Internal Server Error"@,
        status == 501 ==> reason(status) == "Not Implemented"@,
        status == 503 ==> reason(status) == "Service Unavailable"@,
        reason(status) == "Unknown"@ <==> !(set![
            200u16, 201, 202, 204, 400, 401, 403, 404, 405, 409, 413, 422, 429, 500, 501, 503,
        ].contains(status)),
{
    reveal_strlit("OK");
    reveal_strlit("Created");
    reveal_strlit("Accepted");
    reveal_strlit("No Content");
    reveal_strlit("Bad Request");
    reveal_strlit("Unauthorized");
    reveal_strlit("Forbidden");
    reveal_strlit("Not Found");
    reveal_strlit("Method Not Allowed");
    reveal_strlit("Conflict");
    reveal_strlit("Content Too Large");
    reveal_strlit("Unprocessable Content");
    reveal_strlit("Too Many Requests");
    reveal_strlit("Internal Server Error");
    reveal_strlit("Not Implemented");
    reveal_strlit("Service Unavailable");
    reveal_strlit("Unknown");
    let unknown = "Unknown"@;
    assert(unknown[0] == 'U' && unknown.len() == 7);
    assert("OK"@.len() != 7 && "Accepted"@.len() != 7 && "No Content"@.len() != 7);
    assert("Created"@[0] != 'U');
}

/// A response is a status line, three headers, a blank line and the body, each
/// line ended as HTTP ends lines. The length is that of the body in bytes.
pub proof fn a_response_part_by_part(status: u16, body: Seq<char>)
    ensures
        ({
            let crlf = seq!['\r', '\n'];
            response(status, body) == "HTTP/1.1 "@ + text::decimal(status as nat) + seq![' ']
                + reason(status) + crlf + "content-type: application/json"@ + crlf
                + "content-length: "@ + text::decimal(utf8::encode_utf8(body).len()) + crlf
                + "connection: close"@ + crlf + crlf + body
        }),
{
    reveal_strlit(" ");
    reveal_strlit("\r\ncontent-type: application/json\r\ncontent-length: ");
    reveal_strlit("content-type: application/json");
    reveal_strlit("content-length: ");
    reveal_strlit("\r\nconnection: close\r\n\r\n");
    reveal_strlit("connection: close");
    let crlf = seq!['\r', '\n'];
    assert(" "@ =~= seq![' ']);
    assert("\r\ncontent-type: application/json\r\ncontent-length: "@ =~= crlf
        + "content-type: application/json"@ + crlf + "content-length: "@);
    assert("\r\nconnection: close\r\n\r\n"@ =~= crlf + "connection: close"@ + crlf + crlf);
    assert(response(status, body) =~= "HTTP/1.1 "@ + text::decimal(status as nat) + seq![' ']
        + reason(status) + crlf + "content-type: application/json"@ + crlf + "content-length: "@
        + text::decimal(utf8::encode_utf8(body).len()) + crlf + "connection: close"@ + crlf + crlf
        + body);
}

/// A request that was answered ends so, unless the answer could not be written:
/// then its method and its path are named. A request that could not be read, or
/// was refused, ends as failed with what went wrong, and names nothing.
pub proof fn an_outcome_is_what_happened(
    request: RequestLine,
    written: Result<(), IoError>,
    answered: ServeOutcome,
    error: IoError,
    unread: ServeOutcome,
    message: String,
    refused: ServeOutcome,
)
    requires
        call_ensures(ServeOutcome::answered, (&request, written), answered),
        call_ensures(ServeOutcome::unreadable, (error,), unread),
        call_ensures(ServeOutcome::refused, (message,), refused),
    ensures
        written is Ok ==> answered is Answered,
        written matches Err(cause) ==> {
            &&& answered matches ServeOutcome::Failed { context, error: behind }
            &&& behind == cause
            &&& context matches Some(words)
            &&& words@ == request.method@ + " "@ + request.path@
        },
        unread == (ServeOutcome::Failed { context: None, error }),
        refused matches ServeOutcome::Failed { context, error: reason } && context is None
            && reason.message == message && reason.kind is Other,
{
}

/// A reply is framed with its own status and its own body, and a client that
/// reads the frame finds how many bytes the body is long.
pub proof fn a_reply_is_framed_as_it_is(
    reply: Reply,
    framed: String,
    head: &str,
    length: Result<usize, String>,
)
    requires
        utf8::encode_utf8(reply.body@).len() <= usize::MAX,
        call_ensures(format_response, (&reply,), framed),
        head@ + reply.body@ == framed@,
        call_ensures(content_length_of, (head,), length),
    ensures
        framed@ == response(reply.status, reply.body@),
        length matches Ok(n) && n == utf8::encode_utf8(reply.body@).len(),
{
    let bytes = utf8::encode_utf8(reply.body@).len();
    let expected = response_head(reply.status, bytes);
    response_head_declares_the_length(reply.status, bytes);
    assert(head@ + reply.body@ == expected + reply.body@);
    assert((head@ + reply.body@).len() == head@.len() + reply.body@.len());
    assert((expected + reply.body@).len() == expected.len() + reply.body@.len());
    assert forall|i: int| 0 <= i < expected.len() implies head@[i] == expected[i] by {
        assert((head@ + reply.body@)[i] == (expected + reply.body@)[i]);
    }
    assert(head@ =~= expected);
}

}
