//! The request/response client of the add-on socket, without the socket: which
//! step comes next while a command is sent, when the bytes read so far make up the
//! whole response, and what a response means.

use crate::error::{quote_detail, quoted_detail, BridgeError, ErrorKind, ErrorView};
use crate::json::{json_parse, json_text, lemma_object_model, malformed_text};
use crate::json::{JsonModel, JsonValue};
use crate::text::{concat2, decimal_text, push_decimal};
use vstd::prelude::*;
use vstd::string::StringExecFns;

verus! {

/// The port on which the add-on listens unless told otherwise.
pub const DEFAULT_PORT: u16 = 9876;

/// Seconds allowed for the connection to be made.
pub const CONNECT_TIMEOUT_SECS: u64 = 5;

/// Seconds allowed for the request to be written.
pub const WRITE_TIMEOUT_SECS: u64 = 10;

/// Seconds allowed for each read of the response.
pub const READ_TIMEOUT_SECS: u64 = 20;

/// The size of the chunks in which the response is read.
pub const READ_CHUNK_BYTES: usize = 8192;

/// The host on which the add-on listens unless told otherwise.
pub open spec fn default_host_text() -> Seq<char> {
    "127.0.0.1"@
}

/// The liveness probe: `get_scene_info` without parameters.
pub open spec fn ping_model() -> JsonModel {
    JsonModel::Object(
        seq![
            ("type"@, JsonModel::Text("get_scene_info"@)),
            ("params"@, JsonModel::Object(Seq::empty())),
        ],
    )
}

/// The request that has the add-on run `code`.
pub open spec fn execute_code_model(code: Seq<char>) -> JsonModel {
    JsonModel::Object(
        seq![
            ("type"@, JsonModel::Text("execute_code"@)),
            ("params"@, JsonModel::Object(seq![("code"@, JsonModel::Text(code))])),
        ],
    )
}

/// The message of a response that reports a failure: its `message` member, or a
/// fixed text where it has none. `None` for every response whose `status` is not
/// the string `error`.
pub open spec fn remote_failure(response: JsonModel) -> Option<Seq<char>> {
    if response.text_field("status"@) == Some("error"@) {
        Some(
            match response.text_field("message"@) {
                Some(message) => message,
                None => "Unknown Blender addon error"@,
            },
        )
    } else {
        None
    }
}

/// What a parsed response amounts to: itself, or the failure that it reports.
pub open spec fn validated(response: JsonModel) -> Result<JsonModel, ErrorView> {
    match remote_failure(response) {
        Some(message) => Err(ErrorView { kind: ErrorKind::RemoteReported, message }),
        None => Ok(response),
    }
}

/// The model of the outcome of a command.
pub open spec fn outcome_model(outcome: Result<JsonValue, BridgeError>) -> Result<
    JsonModel,
    ErrorView,
> {
    match outcome {
        Ok(value) => Ok(value@),
        Err(error) => Err(error@),
    }
}

/// The host, a colon and the port in decimal.
pub open spec fn endpoint_text(host: Seq<char>, port: u16) -> Seq<char> {
    host + ":"@ + decimal_text(port as nat)
}

/// The message of a resolution that failed with the system's text `detail`.
pub open spec fn resolve_failed_text(host: Seq<char>, port: u16, detail: Seq<char>) -> Seq<char> {
    "Unable to resolve "@ + endpoint_text(host, port) + ": "@ + quoted_detail(detail)
}

/// The message of a resolution that brought no address.
pub open spec fn no_address_text(host: Seq<char>, port: u16) -> Seq<char> {
    "No socket address resolved for "@ + endpoint_text(host, port)
}

/// The message of a connection that was refused or timed out.
pub open spec fn connect_failed_text(host: Seq<char>, port: u16, detail: Seq<char>) -> Seq<char> {
    "Could not connect to Blender socket at "@ + endpoint_text(host, port) + ": "@ + quoted_detail(
        detail,
    )
}

/// The message of a write timeout that could not be set.
pub open spec fn write_timeout_failed_text(detail: Seq<char>) -> Seq<char> {
    "Failed to set write timeout: "@ + quoted_detail(detail)
}

/// The message of a read timeout that could not be set.
pub open spec fn read_timeout_failed_text(detail: Seq<char>) -> Seq<char> {
    "Failed to set read timeout: "@ + quoted_detail(detail)
}

/// The message of a request that could not be written in full.
pub open spec fn write_failed_text(detail: Seq<char>) -> Seq<char> {
    "Failed sending command to Blender socket: "@ + quoted_detail(detail)
}

/// The message of a read that failed for another reason than a timeout.
pub open spec fn read_failed_text(detail: Seq<char>) -> Seq<char> {
    "Failed reading Blender socket response: "@ + quoted_detail(detail)
}

/// The message of a stream that ended although nothing had arrived.
pub open spec fn no_response_text() -> Seq<char> {
    "No response received from Blender addon. Make sure addon server is running."@
}

/// The host on which the add-on listens unless told otherwise.
pub fn default_host() -> (host: String)
    ensures
        host@ == default_host_text(),
{
    String::from_str("127.0.0.1")
}

/// The liveness probe sent to the add-on.
pub fn ping_request() -> (request: JsonValue)
    ensures
        request@ == ping_model(),
{
    let params: Vec<(String, JsonValue)> = Vec::new();
    proof {
        lemma_object_model(params);
    }
    let params_value = JsonValue::Object(params);
    assert(params_value@ == JsonModel::Object(Seq::empty())) by {
        assert(params_value@->Object_0 =~= Seq::empty());
    }
    let mut members: Vec<(String, JsonValue)> = Vec::new();
    members.push((String::from_str("type"), JsonValue::text("get_scene_info")));
    members.push((String::from_str("params"), params_value));
    proof {
        lemma_object_model(members);
    }
    let request = JsonValue::Object(members);
    assert(request@->Object_0 =~= ping_model()->Object_0);
    request
}

/// The request that has the add-on run `code`.
pub fn execute_code_request(code: &str) -> (request: JsonValue)
    ensures
        request@ == execute_code_model(code@),
{
    let mut params: Vec<(String, JsonValue)> = Vec::new();
    params.push((String::from_str("code"), JsonValue::text(code)));
    proof {
        lemma_object_model(params);
    }
    let params_value = JsonValue::Object(params);
    assert(params_value@->Object_0 =~= seq![("code"@, JsonModel::Text(code@))]);
    let mut members: Vec<(String, JsonValue)> = Vec::new();
    members.push((String::from_str("type"), JsonValue::text("execute_code")));
    members.push((String::from_str("params"), params_value));
    proof {
        lemma_object_model(members);
    }
    let request = JsonValue::Object(members);
    assert(request@->Object_0 =~= execute_code_model(code@)->Object_0);
    request
}

/// Turns a response that reports a failure into that failure, and hands every
/// other response back as it is.
pub fn validate_blender_response(response: JsonValue) -> (outcome: Result<JsonValue, BridgeError>)
    ensures
        outcome_model(outcome) == validated(response@),
        outcome matches Ok(value) ==> value == response,
{
    let status = response.text_field("status");
    let failed = match status {
        Some(text) => text == String::from_str("error"),
        None => false,
    };
    if failed {
        let message = match response.text_field("message") {
            Some(message) => message,
            None => String::from_str("Unknown Blender addon error"),
        };
        Err(BridgeError::new(ErrorKind::RemoteReported, message))
    } else {
        Ok(response)
    }
}

/// What one read on the socket brought.
#[derive(Debug, PartialEq, Eq)]
pub enum ReadEvent {
    /// Bytes arrived. No bytes at all mean that the peer has closed.
    Data(Vec<u8>),
    /// The peer closed the connection.
    Closed,
    /// The read timed out.
    TimedOut,
    /// The read failed for another reason, with the system's text.
    Failed(String),
}

impl ReadEvent {
    /// The bytes that the read brought.
    pub open spec fn bytes(self) -> Seq<u8> {
        match self {
            ReadEvent::Data(chunk) => chunk@,
            _ => Seq::empty(),
        }
    }

    /// True where the read ended the stream without an error: the peer closed,
    /// or the read timed out.
    pub open spec fn ends_stream(self) -> bool {
        match self {
            ReadEvent::Data(chunk) => chunk@.len() == 0,
            ReadEvent::Closed => true,
            ReadEvent::TimedOut => true,
            ReadEvent::Failed(_) => false,
        }
    }
}

/// The bytes of a response read so far. As long as reading goes on, they are not
/// yet one whole JSON value.
pub struct ResponseFramer {
    buffer: Vec<u8>,
}

/// What to do after a read.
pub enum FrameStep {
    /// The response is not complete: read again.
    ReadMore(ResponseFramer),
    /// Reading is over, with this outcome of the command.
    Finished(Result<JsonValue, BridgeError>),
}

/// The failure of a stream that ended although nothing had arrived.
pub open spec fn is_no_response(error: ErrorView) -> bool {
    error == (ErrorView { kind: ErrorKind::NoResponse, message: no_response_text() })
}

/// The failure of a stream that ended on `received`, which is not one JSON value.
pub open spec fn is_malformed(error: ErrorView, received: Seq<u8>) -> bool {
    json_parse(received) matches Err(text) && error == (ErrorView {
        kind: ErrorKind::MalformedResponse,
        message: malformed_text(text),
    })
}

impl ResponseFramer {
    #[verifier::type_invariant]
    spec fn incomplete(self) -> bool {
        self.buffer@.len() == 0 || json_parse(self.buffer@) is Err
    }

    /// The bytes read so far.
    pub closed spec fn view(&self) -> Seq<u8> {
        self.buffer@
    }

    /// The framer of a response of which nothing has been read.
    pub fn new() -> (framer: Self)
        ensures
            framer@ == Seq::<u8>::empty(),
    {
        ResponseFramer { buffer: Vec::new() }
    }

    /// The number of bytes read so far.
    pub fn buffered(&self) -> (count: usize)
        ensures
            count == self@.len(),
    {
        self.buffer.len()
    }

    /// Takes in the result of one read and decides whether to read again.
    ///
    /// Bytes are added to those read so far; as soon as all of them together are
    /// one JSON value, that value is the response and reading stops, whether or not
    /// the peer closes. When the stream ends or a read times out, nothing received
    /// means that no server answered, and anything else is a malformed response.
    /// A read that failed otherwise ends the command at once.
    pub fn on_read(self, event: ReadEvent) -> (step: FrameStep)
        ensures
            match event {
                ReadEvent::Failed(detail) => step matches FrameStep::Finished(Err(error))
                    && error@ == (ErrorView {
                    kind: ErrorKind::Io,
                    message: read_failed_text(detail@),
                }),
                _ => if event.ends_stream() {
                    &&& step matches FrameStep::Finished(Err(error))
                    &&& if self@.len() == 0 {
                        is_no_response(error@)
                    } else {
                        is_malformed(error@, self@)
                    }
                } else {
                    match json_parse(self@ + event.bytes()) {
                        Ok(response) => step matches FrameStep::Finished(outcome)
                            && outcome_model(outcome) == validated(response),
                        Err(_) => step matches FrameStep::ReadMore(framer) && framer@ == self@
                            + event.bytes(),
                    }
                },
            },
    {
        proof {
            use_type_invariant(&self);
        }
        let mut buffer = self.buffer;
        match event {
            ReadEvent::Failed(detail) => {
                let message = failure_message("Failed reading Blender socket response: ", detail.as_str());
                FrameStep::Finished(Err(BridgeError::new(ErrorKind::Io, message)))
            },
            ReadEvent::Data(chunk) => {
                if chunk.len() == 0 {
                    FrameStep::Finished(end_of_stream(&buffer))
                } else {
                    let mut chunk = chunk;
                    buffer.append(&mut chunk);
                    match JsonValue::parse(buffer.as_slice()) {
                        Ok(response) => FrameStep::Finished(validate_blender_response(response)),
                        Err(_) => FrameStep::ReadMore(ResponseFramer { buffer }),
                    }
                }
            },
            ReadEvent::Closed => FrameStep::Finished(end_of_stream(&buffer)),
            ReadEvent::TimedOut => FrameStep::Finished(end_of_stream(&buffer)),
        }
    }

    /// Takes in what a run of reads brought, chunk by chunk, as [`Self::on_read`]
    /// does: reading stops at the first chunk that completes a JSON value or
    /// holds no bytes, and the chunks after it are left aside. Where no chunk
    /// ends the reading, the framer holds all the bytes.
    pub fn on_reads(self, chunks: Vec<Vec<u8>>) -> (step: FrameStep)
        ensures
            match framed(self@, chunk_views(chunks@)) {
                Some(expected) => step matches FrameStep::Finished(outcome) && outcome_model(
                    outcome,
                ) == expected,
                None => step matches FrameStep::ReadMore(framer) && framer@ == self@ + joined(
                    chunk_views(chunks@),
                ),
            },
    {
        let ghost start = self@;
        let ghost views = chunk_views(chunks@);
        let mut framer = self;
        assert(views.skip(0) =~= views);
        for chunk in it: chunks
            invariant
                it.seq() == chunks@,
                start == self@,
                views == chunk_views(chunks@),
                framed(framer@, views.skip(it.index())) == framed(start, views),
                framer@ + joined(views.skip(it.index())) == start + joined(views),
        {
            let ghost rest = views.skip(it.index());
            let ghost before = framer@;
            proof {
                use_type_invariant(&framer);
                assert(rest[0] == chunk@);
                assert(rest.drop_first() =~= views.skip(it.index() + 1));
                assert((before + chunk@) + joined(rest.drop_first()) =~= before + joined(rest));
            }
            match framer.on_read(ReadEvent::Data(chunk)) {
                FrameStep::ReadMore(next) => {
                    framer = next;
                },
                FrameStep::Finished(outcome) => {
                    proof {
                        if chunk@.len() == 0 {
                            assert(outcome_model(outcome) == stream_end(before));
                        } else {
                            assert(json_parse(before + chunk@) is Ok);
                        }
                        assert(framed(before, rest) == Some(outcome_model(outcome)));
                    }
                    return FrameStep::Finished(outcome);
                },
            }
        }
        proof {
            assert(views.skip(views.len() as int) =~= Seq::<Seq<u8>>::empty());
            assert(framer@ + joined(Seq::<Seq<u8>>::empty()) =~= framer@);
        }
        FrameStep::ReadMore(framer)
    }
}

/// The outcome of a stream that ended: nothing received means that no server
/// answered; otherwise what was received is parsed one last time.
fn end_of_stream(buffer: &Vec<u8>) -> (outcome: Result<JsonValue, BridgeError>)
    requires
        buffer@.len() == 0 || json_parse(buffer@) is Err,
    ensures
        outcome matches Err(error) && if buffer@.len() == 0 {
            is_no_response(error@)
        } else {
            is_malformed(error@, buffer@)
        },
{
    if buffer.len() == 0 {
        Err(
            BridgeError::new(
                ErrorKind::NoResponse,
                String::from_str(
                    "No response received from Blender addon. Make sure addon server is running.",
                ),
            ),
        )
    } else {
        match JsonValue::parse(buffer.as_slice()) {
            Ok(response) => validate_blender_response(response),
            Err(error) => Err(error),
        }
    }
}

/// The bytes of the chunks, one after another.
pub open spec fn joined(chunks: Seq<Seq<u8>>) -> Seq<u8>
    decreases chunks.len(),
{
    if chunks.len() == 0 {
        Seq::empty()
    } else {
        chunks[0] + joined(chunks.drop_first())
    }
}

/// The outcome of a stream that ended after `received`: nothing received means
/// that no server answered; otherwise what was received is parsed one last time.
pub open spec fn stream_end(received: Seq<u8>) -> Result<JsonModel, ErrorView> {
    if received.len() == 0 {
        Err(ErrorView { kind: ErrorKind::NoResponse, message: no_response_text() })
    } else {
        match json_parse(received) {
            Ok(response) => validated(response),
            Err(text) => Err(
                ErrorView { kind: ErrorKind::MalformedResponse, message: malformed_text(text) },
            ),
        }
    }
}

/// The outcome at which reading stops when the reads bring the chunks one by one
/// after `buffer`: that of the first read after which everything received is one
/// JSON value, or that of the end of the stream where a read brings no bytes
/// before. `None` while more has to be read.
pub open spec fn framed(buffer: Seq<u8>, chunks: Seq<Seq<u8>>) -> Option<
    Result<JsonModel, ErrorView>,
>
    decreases chunks.len(),
{
    if chunks.len() == 0 {
        None
    } else if chunks[0].len() == 0 {
        Some(stream_end(buffer))
    } else {
        match json_parse(buffer + chunks[0]) {
            Ok(response) => Some(validated(response)),
            Err(_) => framed(buffer + chunks[0], chunks.drop_first()),
        }
    }
}

/// The bytes of each chunk, in order.
pub open spec fn chunk_views(chunks: Seq<Vec<u8>>) -> Seq<Seq<u8>> {
    chunks.map_values(|chunk: Vec<u8>| chunk@)
}

/// The number of chunks that are read after `buffer` before reading stops: up
/// to the first chunk with which everything received is one JSON value, or all
/// of them where there is no such chunk.
pub open spec fn chunks_read(buffer: Seq<u8>, chunks: Seq<Seq<u8>>) -> nat
    decreases chunks.len(),
{
    if chunks.len() == 0 {
        0
    } else if json_parse(buffer + chunks[0]) is Ok {
        1
    } else {
        1 + chunks_read(buffer + chunks[0], chunks.drop_first())
    }
}

/// Where every chunk holds bytes, reading stops at the first chunk with which
/// everything received is one JSON value, and its outcome is what that value
/// amounts to; the chunks after it are not read. While no chunk completes a
/// value, reading goes on.
pub proof fn lemma_framing_stops_at_first_value(buffer: Seq<u8>, chunks: Seq<Seq<u8>>)
    requires
        forall|i: int| 0 <= i < chunks.len() ==> (#[trigger] chunks[i]).len() > 0,
    ensures
        ({
            let count = chunks_read(buffer, chunks) as int;
            let received = buffer + joined(chunks.take(count));
            &&& count <= chunks.len()
            &&& chunks.len() > 0 ==> count > 0
            &&& forall|k: int|
                0 < k < count ==> json_parse(buffer + joined(#[trigger] chunks.take(k))) is Err
            &&& framed(buffer, chunks) == if count > 0 && json_parse(received) is Ok {
                Some(validated(json_parse(received)->Ok_0))
            } else {
                None
            }
            &&& count > 0 && json_parse(received) is Err ==> count == chunks.len()
        }),
    decreases chunks.len(),
{
    if chunks.len() > 0 {
        let first = buffer + chunks[0];
        let rest = chunks.drop_first();
        assert(joined(chunks.take(1)) =~= chunks[0]) by {
            assert(chunks.take(1).drop_first().len() == 0);
            assert(joined(chunks.take(1).drop_first()) =~= Seq::<u8>::empty());
            assert(chunks.take(1)[0] == chunks[0]);
        }
        if json_parse(first) is Err {
            assert forall|i: int| 0 <= i < rest.len() implies (#[trigger] rest[i]).len() > 0 by {
                assert(rest[i] == chunks[i + 1]);
            }
            lemma_framing_stops_at_first_value(first, rest);
            let inner = chunks_read(first, rest) as int;
            let count = inner + 1;
            assert forall|k: int| 0 <= k <= rest.len() implies first + joined(
                #[trigger] rest.take(k),
            ) == buffer + joined(chunks.take(k + 1)) by {
                assert(chunks.take(k + 1).drop_first() =~= rest.take(k));
                assert(first + joined(rest.take(k)) =~= buffer + joined(chunks.take(k + 1)));
            }
            assert(first + joined(rest.take(inner)) == buffer + joined(chunks.take(count)));
            assert forall|k: int| 0 < k < count implies json_parse(
                buffer + joined(#[trigger] chunks.take(k)),
            ) is Err by {
                if k > 1 {
                    assert(first + joined(rest.take(k - 1)) == buffer + joined(chunks.take(k)));
                }
            }
        }
    } else {
        assert(chunks.take(0) =~= chunks);
    }
}

/// Framing does not depend on how the bytes are cut into chunks.
///
/// Let a response arrive in non-empty chunks that together are one JSON value.
/// Reading stops at the first chunk with which everything received is a JSON
/// value. Provided that this value amounts to what all the bytes amount to, as
/// it does where no chunk before the last completes a value, the outcome is the
/// one that the same bytes give when they arrive in a single chunk.
pub proof fn lemma_framing_ignores_chunking(chunks: Seq<Seq<u8>>)
    requires
        chunks.len() > 0,
        forall|i: int| 0 <= i < chunks.len() ==> (#[trigger] chunks[i]).len() > 0,
        json_parse(joined(chunks)) is Ok,
        ({
            let received = joined(chunks.take(chunks_read(Seq::empty(), chunks) as int));
            json_parse(received) is Ok ==> validated(json_parse(received)->Ok_0) == validated(
                json_parse(joined(chunks))->Ok_0,
            )
        }),
    ensures
        framed(Seq::empty(), chunks) == Some(validated(json_parse(joined(chunks))->Ok_0)),
        framed(Seq::empty(), chunks) == framed(Seq::empty(), seq![joined(chunks)]),
{
    let empty = Seq::<u8>::empty();
    let count = chunks_read(empty, chunks) as int;
    lemma_framing_stops_at_first_value(empty, chunks);
    assert(empty + joined(chunks.take(count)) =~= joined(chunks.take(count)));
    assert(chunks.take(chunks.len() as int) =~= chunks);
    let whole = seq![joined(chunks)];
    assert(whole.drop_first() =~= Seq::<Seq<u8>>::empty());
    assert(empty + whole[0] =~= joined(chunks));
}

/// What has been observed so far while a command is sent: for each step that was
/// made, whether it succeeded, and the system's text where it did not.
#[derive(Debug, PartialEq, Eq)]
pub struct SendProgress {
    /// The number of socket addresses that the host and port resolved to.
    pub resolved: Option<Result<usize, String>>,
    pub connected: Option<Result<(), String>>,
    pub write_timeout_set: Option<Result<(), String>>,
    pub read_timeout_set: Option<Result<(), String>>,
    pub written: Option<Result<(), String>>,
}

/// The next step of sending a command.
pub enum SendStep {
    /// Resolve the host and port to socket addresses.
    Resolve,
    /// Connect to the first address within the given time.
    Connect { timeout_secs: u64 },
    SetWriteTimeout { secs: u64 },
    SetReadTimeout { secs: u64 },
    /// Write the whole request.
    Write { request: String },
    /// Read the response in chunks of the given size, handing each read to the framer.
    Receive { framer: ResponseFramer, chunk_bytes: usize },
    /// Give up with this failure.
    Failed(BridgeError),
}

/// The mathematical model of a [`SendStep`].
pub enum SendDecision {
    Resolve,
    Connect { timeout_secs: u64 },
    SetWriteTimeout { secs: u64 },
    SetReadTimeout { secs: u64 },
    Write { request: Seq<char> },
    Receive { buffered: Seq<u8>, chunk_bytes: usize },
    Failed(ErrorView),
}

impl View for SendStep {
    type V = SendDecision;

    open spec fn view(&self) -> SendDecision {
        match self {
            SendStep::Resolve => SendDecision::Resolve,
            SendStep::Connect { timeout_secs } => SendDecision::Connect {
                timeout_secs: *timeout_secs,
            },
            SendStep::SetWriteTimeout { secs } => SendDecision::SetWriteTimeout { secs: *secs },
            SendStep::SetReadTimeout { secs } => SendDecision::SetReadTimeout { secs: *secs },
            SendStep::Write { request } => SendDecision::Write { request: request@ },
            SendStep::Receive { framer, chunk_bytes } => SendDecision::Receive {
                buffered: framer@,
                chunk_bytes: *chunk_bytes,
            },
            SendStep::Failed(error) => SendDecision::Failed(error@),
        }
    }
}

impl SendProgress {
    /// Nothing has been done yet.
    pub fn new() -> (progress: Self)
        ensures
            progress.resolved is None,
            progress.connected is None,
            progress.write_timeout_set is None,
            progress.read_timeout_set is None,
            progress.written is None,
    {
        SendProgress {
            resolved: None,
            connected: None,
            write_timeout_set: None,
            read_timeout_set: None,
            written: None,
        }
    }
}

/// The step that gives up with a failure of the given kind and message.
pub open spec fn failure(kind: ErrorKind, message: Seq<char>) -> SendDecision {
    SendDecision::Failed(ErrorView { kind, message })
}

/// The step that follows what has been observed: resolve, connect within five
/// seconds, set the write timeout to ten seconds and the read timeout to twenty,
/// write the compact JSON text of the request, then read in chunks. The first
/// step that failed ends the command with its failure.
pub open spec fn send_decision(
    host: Seq<char>,
    port: u16,
    payload: JsonModel,
    progress: SendProgress,
) -> SendDecision {
    match progress.resolved {
        None => SendDecision::Resolve,
        Some(Err(detail)) => failure(
            ErrorKind::Resolution,
            resolve_failed_text(host, port, detail@),
        ),
        Some(Ok(count)) => if count == 0 {
            failure(ErrorKind::Resolution, no_address_text(host, port))
        } else {
            match progress.connected {
                None => SendDecision::Connect { timeout_secs: CONNECT_TIMEOUT_SECS },
                Some(Err(detail)) => failure(
                    ErrorKind::Connect,
                    connect_failed_text(host, port, detail@),
                ),
                Some(Ok(_)) => match progress.write_timeout_set {
                    None => SendDecision::SetWriteTimeout { secs: WRITE_TIMEOUT_SECS },
                    Some(Err(detail)) => failure(
                        ErrorKind::Io,
                        write_timeout_failed_text(detail@),
                    ),
                    Some(Ok(_)) => match progress.read_timeout_set {
                        None => SendDecision::SetReadTimeout { secs: READ_TIMEOUT_SECS },
                        Some(Err(detail)) => failure(
                            ErrorKind::Io,
                            read_timeout_failed_text(detail@),
                        ),
                        Some(Ok(_)) => match progress.written {
                            None => SendDecision::Write { request: json_text(payload) },
                            Some(Err(detail)) => failure(
                                ErrorKind::Write,
                                write_failed_text(detail@),
                            ),
                            Some(Ok(_)) => SendDecision::Receive {
                                buffered: Seq::empty(),
                                chunk_bytes: READ_CHUNK_BYTES,
                            },
                        },
                    },
                },
            }
        },
    }
}

/// `prefix`, then the host, a colon and the port.
fn with_endpoint(prefix: &str, host: &str, port: u16) -> (message: String)
    ensures
        message@ == prefix@ + endpoint_text(host@, port),
{
    let mut message = String::from_str(prefix);
    message.append(host);
    message.append(":");
    push_decimal(&mut message, port as u64);
    assert(message@ =~= prefix@ + endpoint_text(host@, port));
    message
}

/// `prefix`, then the host, a colon, the port, a colon and the system's text.
fn with_endpoint_and_detail(prefix: &str, host: &str, port: u16, detail: &str) -> (message: String)
    ensures
        message@ == prefix@ + endpoint_text(host@, port) + ": "@ + quoted_detail(detail@),
{
    let mut message = with_endpoint(prefix, host, port);
    message.append(": ");
    message.append(quote_detail(detail).as_str());
    message
}

/// `prefix`, then the system's text as a failure message quotes it.
fn failure_message(prefix: &str, detail: &str) -> (message: String)
    ensures
        message@ == prefix@ + quoted_detail(detail@),
{
    concat2(prefix, quote_detail(detail).as_str())
}

/// Decides the next step of sending `payload` to the add-on at `host` and `port`,
/// from what the steps made so far have brought.
pub fn send_blender_command(
    host: &str,
    port: u16,
    payload: &JsonValue,
    progress: &SendProgress,
) -> (step: SendStep)
    ensures
        step@ == send_decision(host@, port, payload@, *progress),
{
    match &progress.resolved {
        None => { return SendStep::Resolve; },
        Some(Err(detail)) => {
            let message = with_endpoint_and_detail(
                "Unable to resolve ",
                host,
                port,
                detail.as_str(),
            );
            return SendStep::Failed(BridgeError::new(ErrorKind::Resolution, message));
        },
        Some(Ok(count)) => {
            if *count == 0 {
                let message = with_endpoint("No socket address resolved for ", host, port);
                return SendStep::Failed(BridgeError::new(ErrorKind::Resolution, message));
            }
        },
    }
    match &progress.connected {
        None => { return SendStep::Connect { timeout_secs: CONNECT_TIMEOUT_SECS }; },
        Some(Err(detail)) => {
            let message = with_endpoint_and_detail(
                "Could not connect to Blender socket at ",
                host,
                port,
                detail.as_str(),
            );
            return SendStep::Failed(BridgeError::new(ErrorKind::Connect, message));
        },
        Some(Ok(_)) => {},
    }
    match &progress.write_timeout_set {
        None => { return SendStep::SetWriteTimeout { secs: WRITE_TIMEOUT_SECS }; },
        Some(Err(detail)) => {
            let message = failure_message("Failed to set write timeout: ", detail.as_str());
            return SendStep::Failed(BridgeError::new(ErrorKind::Io, message));
        },
        Some(Ok(_)) => {},
    }
    match &progress.read_timeout_set {
        None => { return SendStep::SetReadTimeout { secs: READ_TIMEOUT_SECS }; },
        Some(Err(detail)) => {
            let message = failure_message("Failed to set read timeout: ", detail.as_str());
            return SendStep::Failed(BridgeError::new(ErrorKind::Io, message));
        },
        Some(Ok(_)) => {},
    }
    match &progress.written {
        None => SendStep::Write { request: payload.render() },
        Some(Err(detail)) => {
            let message = failure_message(
                "Failed sending command to Blender socket: ",
                detail.as_str(),
            );
            SendStep::Failed(BridgeError::new(ErrorKind::Write, message))
        },
        Some(Ok(_)) => SendStep::Receive {
            framer: ResponseFramer::new(),
            chunk_bytes: READ_CHUNK_BYTES,
        },
    }
}

} // verus!
