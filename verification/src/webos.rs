//! The webOS second-screen protocol as the tool speaks it: where it connects,
//! the messages it sends, and how it reads each message the TV sends back.
//!
//! Pairing sends a registration that makes the TV prompt the user and waits
//! for the `registered` reply that carries a client key. A command registers
//! with the saved client key, then sends one request and waits for its
//! `response`. Replies to other message ids are ignored; an `error` reply to
//! the awaited id ends the exchange.

use vstd::prelude::*;
use serde_json::Value;
use std::time::Duration;

use crate::config::{millis_duration, Config};
use crate::error::LgtvctlError;
use crate::text::{decimal, joined, owned, push_char, push_decimal, same_text};

verus! {

/// A client for one TV, holding the configuration it connects with.
pub struct WebOsClient {
    config: Config,
}

/// The client key the TV handed out when pairing was confirmed.
#[derive(Debug, PartialEq, Eq)]
pub struct PairResult {
    pub client_key: String,
}

/// What a successful connection reports: the URL and the HTTP status of the
/// WebSocket handshake.
#[derive(Debug, Clone, PartialEq, Eq)]
pub struct ProbeResult {
    pub url: String,
    pub http_status: u16,
}

/// The line `probe` prints: `connected: <url> http_status=<code> <reason>`.
pub fn probe_line(result: &ProbeResult, reason: &str) -> (s: String)
    ensures
        s@ == "connected: "@ + result.url@ + " http_status="@ + decimal(result.http_status as nat)
            + seq![' '] + reason@,
{
    let mut s = joined("connected: ", result.url.as_str());
    s.append(" http_status=");
    push_decimal(&mut s, result.http_status as u64);
    push_char(&mut s, ' ');
    s.append(reason);
    s
}

/// The parameters a request carries.
#[derive(Debug, Clone, Copy, PartialEq, Eq)]
pub enum Payload {
    /// `{"volume": level}`
    Volume(u8),
    /// `{"mute": on}`
    Mute(bool),
}

/// One request to the TV: a name used in message ids and reports, the
/// `ssap://` URI it calls, and its parameters.
#[derive(Debug, PartialEq, Eq)]
pub struct RequestSpec {
    pub name: String,
    pub uri: String,
    pub payload: Option<Payload>,
}

/// A request as data: its name, URI and parameters.
pub struct RequestView {
    pub name: Seq<char>,
    pub uri: Seq<char>,
    pub payload: Option<Payload>,
}

impl View for RequestSpec {
    type V = RequestView;

    open spec fn view(&self) -> RequestView {
        RequestView { name: self.name@, uri: self.uri@, payload: self.payload }
    }
}

/// How a registration identifies the client.
#[derive(Debug, PartialEq, Eq)]
pub enum Registration {
    /// No key yet: the TV asks the user to allow the client
    /// (`forcePairing: false`, `pairingType: "PROMPT"`).
    Prompt,
    /// The client key saved by an earlier pairing.
    ClientKey(String),
}

/// A message to the TV. Registrations also carry the application manifest.
#[derive(Debug, PartialEq, Eq)]
pub enum OutgoingMessage {
    /// `{"id", "type": "register", "payload": ...}`
    Register { id: String, registration: Registration },
    /// `{"id", "type": "request", "uri", "payload"?}`
    Request { id: String, uri: String, payload: Option<Payload> },
}

/// The `payload` of a message from the TV: its JSON text (`null` when the
/// message has none) and its `returnValue`, `mute` and `muted` fields where
/// they are booleans.
#[derive(Debug, PartialEq, Eq)]
pub struct Reply {
    pub text: String,
    pub return_value: Option<bool>,
    pub mute: Option<bool>,
    pub muted: Option<bool>,
}

/// What the tool reads of a message from the TV: its `id` and `type` when
/// they are strings, `payload.client-key` when it is a string, the whole
/// message as JSON text, and its payload.
#[derive(Debug, PartialEq, Eq)]
pub struct IncomingMessage {
    pub id: Option<String>,
    pub kind: Option<String>,
    pub client_key: Option<String>,
    pub text: String,
    pub payload: Reply,
}

/// The fields of a message from the TV, as data.
pub struct MessageFields {
    pub id: Option<Seq<char>>,
    pub kind: Option<Seq<char>>,
    pub client_key: Option<Seq<char>>,
    pub text: Seq<char>,
    pub payload: Seq<char>,
    pub return_value: Option<bool>,
    pub mute: Option<bool>,
    pub muted: Option<bool>,
}

/// The view of an optional string.
pub open spec fn opt_text(o: Option<String>) -> Option<Seq<char>> {
    match o {
        Some(s) => Some(s@),
        None => None,
    }
}

impl View for IncomingMessage {
    type V = MessageFields;

    open spec fn view(&self) -> MessageFields {
        MessageFields {
            id: opt_text(self.id),
            kind: opt_text(self.kind),
            client_key: opt_text(self.client_key),
            text: self.text@,
            payload: self.payload.text@,
            return_value: self.payload.return_value,
            mute: self.payload.mute,
            muted: self.payload.muted,
        }
    }
}

/// What `serde_json::from_str` reads of a message text, when the text is
/// JSON; `None` when it is not.
pub uninterp spec fn json_fields(text: Seq<char>) -> Option<MessageFields>;

/// The complaint (the `Display` text of the error) of `serde_json::from_str`
/// about text that is not JSON.
pub uninterp spec fn json_complaint(text: Seq<char>) -> Seq<char>;

/// What `serde_json::from_slice` reads of a message in bytes, when the bytes
/// are JSON; `None` when they are not.
pub uninterp spec fn json_bytes_fields(bytes: Seq<u8>) -> Option<MessageFields>;

/// The complaint of `serde_json::from_slice` about bytes that are not JSON.
pub uninterp spec fn json_bytes_complaint(bytes: Seq<u8>) -> Seq<char>;

/// `serde_json::from_str` on the text of a message, then reading its fields:
/// `id`, `type`, `payload.client-key` where they are strings, the whole value
/// written back as JSON text, and the payload (or `null`) as JSON text with its
/// boolean `returnValue`, `mute` and `muted`. The result is the same for the
/// same text; on text that is not JSON it is the error's `Display` text.
#[verifier::external_body]
fn decode_message(text: &str) -> (r: Result<IncomingMessage, String>)
    ensures
        match json_fields(text@) {
            Some(f) => r matches Ok(m) && m@ == f,
            None => r matches Err(c) && c@ == json_complaint(text@),
        },
{
    let v: Value = serde_json::from_str(text).map_err(|e| e.to_string())?;
    let p = v.get("payload");
    let s = |x: Option<&Value>| x.and_then(|y| y.as_str()).map(String::from);
    let b = |k| p.and_then(|q| q.get(k)).and_then(|y| y.as_bool());
    let payload = Reply {
        text: p.unwrap_or(&Value::Null).to_string(),
        return_value: b("returnValue"),
        mute: b("mute"),
        muted: b("muted"),
    };
    let client_key = s(p.and_then(|q| q.get("client-key")));
    Ok(IncomingMessage { id: s(v.get("id")), kind: s(v.get("type")), client_key, text: v.to_string(), payload })
}

/// `serde_json::from_slice` on the bytes of a message, then reading its
/// fields as `decode_message` does.
#[verifier::external_body]
fn decode_message_bytes(bytes: &[u8]) -> (r: Result<IncomingMessage, String>)
    ensures
        match json_bytes_fields(bytes@) {
            Some(f) => r matches Ok(m) && m@ == f,
            None => r matches Err(c) && c@ == json_bytes_complaint(bytes@),
        },
{
    let v: Value = serde_json::from_slice(bytes).map_err(|e| e.to_string())?;
    let p = v.get("payload");
    let s = |x: Option<&Value>| x.and_then(|y| y.as_str()).map(String::from);
    let b = |k| p.and_then(|q| q.get(k)).and_then(|y| y.as_bool());
    let payload = Reply {
        text: p.unwrap_or(&Value::Null).to_string(),
        return_value: b("returnValue"),
        mute: b("mute"),
        muted: b("muted"),
    };
    let client_key = s(p.and_then(|q| q.get("client-key")));
    Ok(IncomingMessage { id: s(v.get("id")), kind: s(v.get("type")), client_key, text: v.to_string(), payload })
}

/// How a message bears on the reply that is awaited.
pub enum ReplyClass {
    /// Another id, or a type that is neither the awaited one nor `error`.
    Ignore,
    /// The awaited id with the awaited type.
    Success,
    /// The awaited id with type `error`.
    Failure,
}

/// Where an exchange with the TV stands.
#[derive(Debug, PartialEq, Eq)]
pub enum Session {
    /// The pairing registration with this id is sent; its `registered` reply is awaited.
    Pairing { id: String },
    /// The registration with this id is sent; once the TV accepts it, `request` follows.
    Authenticating { id: String, request: RequestSpec },
    /// The request with this id is sent; its `response` is awaited.
    AwaitingResponse { id: String, name: String },
    /// The exchange is over.
    Finished,
}

/// What to do after a message from the TV.
#[derive(Debug, PartialEq, Eq)]
pub enum Outcome {
    /// Keep reading messages.
    Wait,
    /// Send this message, then keep reading.
    Send(OutgoingMessage),
    /// Pairing succeeded.
    Paired(PairResult),
    /// The request was answered with this payload.
    Responded(Reply),
    /// The exchange failed.
    Failed(LgtvctlError),
}

/// The stretch of an exchange that a timeout bounds.
#[derive(Debug, PartialEq, Eq)]
pub enum Phase {
    Connect,
    Pair,
    Auth,
    Response(String),
}

/// The URL of the TV's secure WebSocket endpoint.
pub open spec fn url_text(host: Seq<char>, port: u16) -> Seq<char> {
    "wss://"@ + host + seq![':'] + decimal(port as nat) + seq!['/']
}

/// A lower-case hexadecimal digit.
pub open spec fn is_lower_hex(c: char) -> bool {
    ('0' <= c && c <= '9') || ('a' <= c && c <= 'f')
}

/// The hyphenated text of a random (version 4) UUID, such as
/// `67e55044-10b1-426f-9247-bb680e5fe0c8`.
pub open spec fn is_uuid_text(u: Seq<char>) -> bool {
    &&& u.len() == 36
    &&& forall|i: int|
        0 <= i < 36 ==> if i == 8 || i == 13 || i == 18 || i == 23 {
            #[trigger] u[i] == '-'
        } else {
            is_lower_hex(u[i])
        }
    &&& u[14] == '4'
}

/// A message id: the prefix, `_`, and a fresh random UUID.
pub open spec fn is_message_id(id: Seq<char>, prefix: Seq<char>) -> bool {
    &&& id.len() == prefix.len() + 37
    &&& id.subrange(0, prefix.len() as int) == prefix
    &&& id[prefix.len() as int] == '_'
    &&& is_uuid_text(id.subrange(prefix.len() as int + 1, id.len() as int))
}

/// `Uuid::new_v4().to_string()`: a random UUID in hyphenated lower-case text.
/// Which UUID comes back is left open; two calls may give different ones.
#[verifier::external_body]
fn random_uuid_text() -> (u: String)
    ensures
        is_uuid_text(u@),
{
    uuid::Uuid::new_v4().to_string()
}

/// A fresh message id with the given prefix.
pub fn message_id(prefix: &str) -> (id: String)
    ensures
        is_message_id(id@, prefix@),
{
    let mut id = owned(prefix);
    push_char(&mut id, '_');
    let u = random_uuid_text();
    id.append(u.as_str());
    assert(id@.subrange(0, prefix@.len() as int) =~= prefix@);
    assert(id@.subrange(prefix@.len() as int + 1, id@.len() as int) =~= u@);
    id
}

/// The id of a message to the TV.
pub open spec fn outgoing_id(m: OutgoingMessage) -> Seq<char> {
    match m {
        OutgoingMessage::Register { id, .. } => id@,
        OutgoingMessage::Request { id, .. } => id@,
    }
}

impl OutgoingMessage {
    /// The message's id.
    pub fn id(&self) -> (r: &str)
        ensures
            r@ == outgoing_id(*self),
    {
        match self {
            OutgoingMessage::Register { id, .. } => id.as_str(),
            OutgoingMessage::Request { id, .. } => id.as_str(),
        }
    }
}

/// Whether a message answers the message with id `id`.
pub open spec fn addressed_to(m: IncomingMessage, id: Seq<char>) -> bool {
    m.id is Some && m.id->0@ == id
}

/// Whether a message has the given type.
pub open spec fn has_kind(m: IncomingMessage, kind: Seq<char>) -> bool {
    m.kind is Some && m.kind->0@ == kind
}

/// How a message bears on the awaited reply of type `success` to id `id`.
pub open spec fn classify(m: IncomingMessage, id: Seq<char>, success: Seq<char>) -> ReplyClass {
    if !addressed_to(m, id) {
        ReplyClass::Ignore
    } else if has_kind(m, success) {
        ReplyClass::Success
    } else if has_kind(m, "error"@) {
        ReplyClass::Failure
    } else {
        ReplyClass::Ignore
    }
}

fn opt_same(o: &Option<String>, t: &str) -> (r: bool)
    ensures
        r == (o is Some && o->0@ == t@),
{
    match o {
        Some(s) => same_text(s.as_str(), t),
        None => false,
    }
}

/// Classifies a message against the awaited reply (see `classify`).
pub fn classify_reply(m: &IncomingMessage, id: &str, success: &str) -> (r: ReplyClass)
    ensures
        r == classify(*m, id@, success@),
{
    if !opt_same(&m.id, id) {
        ReplyClass::Ignore
    } else if opt_same(&m.kind, success) {
        ReplyClass::Success
    } else if opt_same(&m.kind, "error") {
        ReplyClass::Failure
    } else {
        ReplyClass::Ignore
    }
}

impl WebOsClient {
    /// The configuration the client connects with.
    pub closed spec fn settings(&self) -> Config {
        self.config
    }

    /// A client for the TV that the configuration describes.
    pub fn new(config: Config) -> (c: WebOsClient)
        ensures
            c.settings() == config,
    {
        WebOsClient { config }
    }

    /// The configuration the client connects with.
    pub fn config(&self) -> (c: &Config)
        ensures
            *c == self.settings(),
    {
        &self.config
    }

    /// `wss://<host>:<port>/`, or `MissingHost` without a host.
    pub fn url(&self) -> (r: Result<String, LgtvctlError>)
        ensures
            r is Ok <==> self.settings().host is Some,
            r matches Ok(u) ==> u@ == url_text(self.settings().host->0@, self.settings().port),
            r matches Err(e) ==> e == LgtvctlError::MissingHost,
    {
        let host = self.config.require_host()?;
        let mut u = joined("wss://", host);
        push_char(&mut u, ':');
        push_decimal(&mut u, self.config.port as u64);
        push_char(&mut u, '/');
        Ok(u)
    }

    /// How long a phase may take: the pairing timeout while the user is asked
    /// to confirm pairing, the ordinary timeout otherwise.
    pub fn phase_timeout(&self, phase: &Phase) -> (d: Duration)
        ensures
            d == millis_duration(phase_limit_ms(self.settings(), *phase)),
    {
        match phase {
            Phase::Pair => self.config.pair_timeout(),
            _ => self.config.timeout(),
        }
    }

    /// The error reported when a phase runs out of time.
    pub fn timeout_error(&self, phase: Phase) -> (e: LgtvctlError)
        ensures
            e matches LgtvctlError::Timeout { operation, timeout_ms } && operation@
                == phase_name(phase) && timeout_ms == phase_limit_ms(self.settings(), phase),
    {
        let timeout_ms = match phase {
            Phase::Pair => self.config.pair_timeout_ms,
            _ => self.config.timeout_ms,
        };
        let operation = match phase {
            Phase::Connect => owned("connect"),
            Phase::Pair => owned("pair"),
            Phase::Auth => owned("auth"),
            Phase::Response(name) => name,
        };
        LgtvctlError::Timeout { operation, timeout_ms }
    }

    /// Starts a request: the registration with the saved client key, and the
    /// session that sends `request` once the TV accepts it. Without a usable
    /// client key it fails with `MissingClientKeyConfig` and sends nothing.
    pub fn start_request(&self, request: RequestSpec) -> (r: Result<(Session, OutgoingMessage), LgtvctlError>)
        ensures
            r is Ok <==> (self.settings().client_key is Some && !crate::text::is_blank(
                self.settings().client_key->0@,
            )),
            r matches Err(e) ==> e == LgtvctlError::MissingClientKeyConfig,
            r matches Ok((s, m)) ==> m matches OutgoingMessage::Register { id, registration }
                && registration matches Registration::ClientKey(k) && k@
                == self.settings().client_key->0@
                && is_message_id(id@, "register"@) && s == (Session::Authenticating { id, request }),
    {
        let key = self.config.require_client_key()?;
        let id = message_id("register");
        let message = OutgoingMessage::Register {
            id: id.clone(),
            registration: Registration::ClientKey(owned(key)),
        };
        Ok((Session::Authenticating { id, request }, message))
    }
}

/// The milliseconds a phase may take.
pub open spec fn phase_limit_ms(c: Config, phase: Phase) -> u64 {
    match phase {
        Phase::Pair => c.pair_timeout_ms,
        _ => c.timeout_ms,
    }
}

/// The operation a timeout reports.
pub open spec fn phase_name(phase: Phase) -> Seq<char> {
    match phase {
        Phase::Connect => "connect"@,
        Phase::Pair => "pair"@,
        Phase::Auth => "auth"@,
        Phase::Response(name) => name@,
    }
}

/// Starts pairing: the registration that makes the TV prompt the user, and
/// the session that awaits its `registered` reply.
pub fn start_pairing() -> (r: (Session, OutgoingMessage))
    ensures
        r.1 matches OutgoingMessage::Register { id, registration } && registration
            == Registration::Prompt && is_message_id(id@, "register"@) && r.0 == (Session::Pairing {
            id,
        }),
{
    let id = message_id("register");
    let message = OutgoingMessage::Register { id: id.clone(), registration: Registration::Prompt };
    (Session::Pairing { id }, message)
}

/// The request message for a request, with a fresh id prefixed by its name.
pub fn request_message(request: RequestSpec) -> (r: (String, OutgoingMessage))
    ensures
        is_message_id(r.0@, request.name@),
        r.1 == (OutgoingMessage::Request { id: r.0, uri: request.uri, payload: request.payload }),
{
    let id = message_id(request.name.as_str());
    (id.clone(), OutgoingMessage::Request { id, uri: request.uri, payload: request.payload })
}

/// The phase a session is in, for its timeout.
pub open spec fn session_phase(s: Session) -> Phase {
    match s {
        Session::Pairing { .. } => Phase::Pair,
        Session::Authenticating { .. } => Phase::Auth,
        Session::AwaitingResponse { name, .. } => Phase::Response(name),
        Session::Finished => Phase::Auth,
    }
}

/// What happens on a message from the TV in each state of a session.
pub open spec fn advance_spec(s: Session, m: IncomingMessage, next: Session, out: Outcome) -> bool {
    match s {
        Session::Pairing { id } => match classify(m, id@, "registered"@) {
            ReplyClass::Ignore => next == s && out == Outcome::Wait,
            ReplyClass::Success => next == Session::Finished && match m.client_key {
                Some(k) => out == Outcome::Paired(PairResult { client_key: k }),
                None => out == Outcome::Failed(LgtvctlError::MissingClientKey),
            },
            ReplyClass::Failure => next == Session::Finished && out == Outcome::Failed(
                LgtvctlError::Protocol(m.text),
            ),
        },
        Session::Authenticating { id, request } => match classify(m, id@, "registered"@) {
            ReplyClass::Ignore => next == s && out == Outcome::Wait,
            ReplyClass::Success => {
                &&& next matches Session::AwaitingResponse { id: rid, name } && name == request.name
                    && is_message_id(rid@, request.name@) && out == Outcome::Send(
                    OutgoingMessage::Request { id: rid, uri: request.uri, payload: request.payload },
                )
            },
            ReplyClass::Failure => next == Session::Finished && out == Outcome::Failed(
                LgtvctlError::Protocol(m.text),
            ),
        },
        Session::AwaitingResponse { id, .. } => match classify(m, id@, "response"@) {
            ReplyClass::Ignore => next == s && out == Outcome::Wait,
            ReplyClass::Success => next == Session::Finished && out == Outcome::Responded(m.payload),
            ReplyClass::Failure => next == Session::Finished && out == Outcome::Failed(
                LgtvctlError::Protocol(m.text),
            ),
        },
        Session::Finished => next == Session::Finished && out == Outcome::Wait,
    }
}

impl Session {
    /// Takes one message from the TV (see `advance_spec`).
    pub fn advance(self, m: IncomingMessage) -> (r: (Session, Outcome))
        ensures
            advance_spec(self, m, r.0, r.1),
    {
        match self {
            Session::Pairing { id } => {
                match classify_reply(&m, id.as_str(), "registered") {
                    ReplyClass::Ignore => (Session::Pairing { id }, Outcome::Wait),
                    ReplyClass::Success => {
                        let out = match m.client_key {
                            Some(k) => Outcome::Paired(PairResult { client_key: k }),
                            None => Outcome::Failed(LgtvctlError::MissingClientKey),
                        };
                        (Session::Finished, out)
                    },
                    ReplyClass::Failure => (
                        Session::Finished,
                        Outcome::Failed(LgtvctlError::Protocol(m.text)),
                    ),
                }
            },
            Session::Authenticating { id, request } => {
                match classify_reply(&m, id.as_str(), "registered") {
                    ReplyClass::Ignore => (Session::Authenticating { id, request }, Outcome::Wait),
                    ReplyClass::Success => {
                        let name = request.name.clone();
                        let (rid, message) = request_message(request);
                        (Session::AwaitingResponse { id: rid, name }, Outcome::Send(message))
                    },
                    ReplyClass::Failure => (
                        Session::Finished,
                        Outcome::Failed(LgtvctlError::Protocol(m.text)),
                    ),
                }
            },
            Session::AwaitingResponse { id, name } => {
                match classify_reply(&m, id.as_str(), "response") {
                    ReplyClass::Ignore => (Session::AwaitingResponse { id, name }, Outcome::Wait),
                    ReplyClass::Success => (Session::Finished, Outcome::Responded(m.payload)),
                    ReplyClass::Failure => (
                        Session::Finished,
                        Outcome::Failed(LgtvctlError::Protocol(m.text)),
                    ),
                }
            },
            Session::Finished => (Session::Finished, Outcome::Wait),
        }
    }

    /// The phase the session is in, which sets how long it may wait.
    pub fn phase(&self) -> (p: Phase)
        ensures
            p == session_phase(*self),
    {
        match self {
            Session::Pairing { .. } => Phase::Pair,
            Session::Authenticating { .. } => Phase::Auth,
            Session::AwaitingResponse { name, .. } => Phase::Response(name.clone()),
            Session::Finished => Phase::Auth,
        }
    }

    /// Whether the exchange is over.
    pub fn is_finished(&self) -> (b: bool)
        ensures
            b == (*self == Session::Finished),
    {
        match self {
            Session::Finished => true,
            _ => false,
        }
    }
}

/// A WebSocket frame, or the end of the stream. A close frame carries its
/// details as debug text.
pub enum Frame {
    Text(String),
    Binary(Vec<u8>),
    Ping(Vec<u8>),
    Pong,
    Close(String),
    Other,
    End,
}

/// What reading the next JSON message does with a frame.
pub enum FrameAction {
    /// Decode the text as JSON: that is the next message.
    DecodeText(String),
    /// Decode the bytes as JSON: that is the next message.
    DecodeBytes(Vec<u8>),
    /// Answer with a pong carrying these bytes, then read on.
    Pong(Vec<u8>),
    /// Read on.
    Skip,
    /// Reading failed.
    Fail(LgtvctlError),
}

/// What reading the next JSON message does with each kind of frame.
pub open spec fn frame_action_spec(f: Frame, a: FrameAction) -> bool {
    match f {
        Frame::Text(t) => a == FrameAction::DecodeText(t),
        Frame::Binary(b) => a == FrameAction::DecodeBytes(b),
        Frame::Ping(b) => a == FrameAction::Pong(b),
        Frame::Pong | Frame::Other => a == FrameAction::Skip,
        Frame::Close(details) => a matches FrameAction::Fail(LgtvctlError::Protocol(msg)) && msg@
            == "websocket closed by TV: "@ + details@,
        Frame::End => a matches FrameAction::Fail(LgtvctlError::Protocol(msg)) && msg@
            == "websocket closed by TV"@,
    }
}

/// Decides what to do with a frame while waiting for the next JSON message:
/// text and binary frames are decoded, pings answered, pongs and raw frames
/// passed over, and a close frame or the end of the stream is an error.
pub fn frame_action(f: Frame) -> (a: FrameAction)
    ensures
        frame_action_spec(f, a),
{
    match f {
        Frame::Text(t) => FrameAction::DecodeText(t),
        Frame::Binary(b) => FrameAction::DecodeBytes(b),
        Frame::Ping(b) => FrameAction::Pong(b),
        Frame::Pong => FrameAction::Skip,
        Frame::Other => FrameAction::Skip,
        Frame::Close(details) => FrameAction::Fail(
            LgtvctlError::Protocol(joined("websocket closed by TV: ", details.as_str())),
        ),
        Frame::End => FrameAction::Fail(LgtvctlError::Protocol(owned("websocket closed by TV"))),
    }
}

/// The error for a text frame that is not JSON: the decoder's complaint and
/// the text received.
pub fn invalid_json(complaint: &str, raw: &str) -> (e: LgtvctlError)
    ensures
        e matches LgtvctlError::Protocol(msg) && msg@ == "invalid JSON from TV: "@ + complaint@
            + "; raw="@ + raw@,
{
    let mut msg = joined("invalid JSON from TV: ", complaint);
    msg.append("; raw=");
    msg.append(raw);
    LgtvctlError::Protocol(msg)
}

/// The error for a binary frame that is not JSON.
pub fn invalid_binary_json(complaint: &str) -> (e: LgtvctlError)
    ensures
        e matches LgtvctlError::Protocol(msg) && msg@ == "invalid binary JSON from TV: "@
            + complaint@,
{
    LgtvctlError::Protocol(joined("invalid binary JSON from TV: ", complaint))
}

/// Messages addressed to another id never move a session on: it stays where
/// it was and keeps reading.
pub proof fn foreign_replies_are_ignored(s: Session, m: IncomingMessage, next: Session, out: Outcome)
    requires
        advance_spec(s, m, next, out),
        s matches Session::Pairing { id } ==> !addressed_to(m, id@),
        s matches Session::Authenticating { id, .. } ==> !addressed_to(m, id@),
        s matches Session::AwaitingResponse { id, .. } ==> !addressed_to(m, id@),
    ensures
        next == s,
        out == Outcome::Wait,
{
}

/// An exchange ends exactly when it reports its result: pairing with the
/// client key, a request with its response, either with an error; a finished
/// exchange stays finished and reports nothing more.
pub proof fn sessions_end_with_their_result(s: Session, m: IncomingMessage, next: Session, out: Outcome)
    requires
        advance_spec(s, m, next, out),
    ensures
        s == Session::Finished ==> next == Session::Finished && out == Outcome::Wait,
        s != Session::Finished ==> (next == Session::Finished <==> (out is Paired || out is Responded
            || out is Failed)),
        out is Paired ==> s is Pairing,
        out is Responded ==> s is AwaitingResponse,
        out is Send ==> s is Authenticating && next is AwaitingResponse,
{
}

/// What reading the next message makes of a frame.
#[derive(Debug, PartialEq, Eq)]
pub enum NextMessage {
    /// The next message from the TV.
    Message(IncomingMessage),
    /// Answer with a pong carrying these bytes, then read on.
    Pong(Vec<u8>),
    /// Read on.
    Skip,
    /// Reading failed.
    Fail(LgtvctlError),
}

/// What reading the next message makes of each kind of frame: text and
/// binary frames are decoded as JSON, and decoding errors are protocol errors
/// that quote the decoder (and, for text, the text); the rest as
/// `frame_action_spec` says.
pub open spec fn next_message_spec(f: Frame, r: NextMessage) -> bool {
    match f {
        Frame::Text(t) => match json_fields(t@) {
            Some(fields) => r matches NextMessage::Message(m) && m@ == fields,
            None => r matches NextMessage::Fail(LgtvctlError::Protocol(msg)) && msg@
                == "invalid JSON from TV: "@ + json_complaint(t@) + "; raw="@ + t@,
        },
        Frame::Binary(b) => match json_bytes_fields(b@) {
            Some(fields) => r matches NextMessage::Message(m) && m@ == fields,
            None => r matches NextMessage::Fail(LgtvctlError::Protocol(msg)) && msg@
                == "invalid binary JSON from TV: "@ + json_bytes_complaint(b@),
        },
        Frame::Ping(b) => r == NextMessage::Pong(b),
        Frame::Pong | Frame::Other => r == NextMessage::Skip,
        Frame::Close(details) => r matches NextMessage::Fail(LgtvctlError::Protocol(msg)) && msg@
            == "websocket closed by TV: "@ + details@,
        Frame::End => r matches NextMessage::Fail(LgtvctlError::Protocol(msg)) && msg@
            == "websocket closed by TV"@,
    }
}

/// Reads a frame while waiting for the next message from the TV (see
/// `next_message_spec`).
pub fn next_message(f: Frame) -> (r: NextMessage)
    ensures
        next_message_spec(f, r),
{
    match frame_action(f) {
        FrameAction::DecodeText(t) => match decode_message(t.as_str()) {
            Ok(m) => NextMessage::Message(m),
            Err(complaint) => NextMessage::Fail(invalid_json(complaint.as_str(), t.as_str())),
        },
        FrameAction::DecodeBytes(b) => match decode_message_bytes(b.as_slice()) {
            Ok(m) => NextMessage::Message(m),
            Err(complaint) => NextMessage::Fail(invalid_binary_json(complaint.as_str())),
        },
        FrameAction::Pong(b) => NextMessage::Pong(b),
        FrameAction::Skip => NextMessage::Skip,
        FrameAction::Fail(e) => NextMessage::Fail(e),
    }
}

impl Outcome {
    /// Whether the session has entered a new phase, whose wait starts afresh:
    /// exactly after sending a message.
    pub fn starts_new_phase(&self) -> (b: bool)
        ensures
            b == (*self is Send),
    {
        match self {
            Outcome::Send(_) => true,
            _ => false,
        }
    }
}

/// Pairing waits for the user: a session awaiting the pairing reply is bound
/// by the configuration's pairing timeout and reports `pair` when it runs
/// out; registering with a key is bound by the ordinary timeout and reports
/// `auth`; awaiting a response is bound by the ordinary timeout and reports
/// the request's name; connecting is bound by the ordinary timeout.
pub proof fn pairing_waits_for_the_user(c: Config, s: Session)
    ensures
        s is Pairing ==> phase_limit_ms(c, session_phase(s)) == c.pair_timeout_ms
            && phase_name(session_phase(s)) == "pair"@,
        s is Authenticating ==> phase_limit_ms(c, session_phase(s)) == c.timeout_ms
            && phase_name(session_phase(s)) == "auth"@,
        s matches Session::AwaitingResponse { name, .. } ==> phase_limit_ms(c, session_phase(s))
            == c.timeout_ms && phase_name(session_phase(s)) == name@,
        phase_limit_ms(c, Phase::Connect) == c.timeout_ms,
        phase_name(Phase::Connect) == "connect"@,
{
}

/// Only the awaited kind of reply to the awaited id succeeds, and an `error`
/// reply to it always fails: a request is answered only by a `response` to
/// the request's id, pairing succeeds only on `registered` to the pairing id
/// and hands out that message's client key, and an `error` reply to the id a
/// session awaits ends it with a protocol error quoting the message.
pub proof fn replies_decide_by_id_and_type(s: Session, m: IncomingMessage, next: Session, out: Outcome)
    requires
        advance_spec(s, m, next, out),
    ensures
        out is Responded ==> (s matches Session::AwaitingResponse { id, .. } && addressed_to(m, id@)
            && has_kind(m, "response"@) && out == Outcome::Responded(m.payload)),
        out is Paired ==> (s matches Session::Pairing { id } && addressed_to(m, id@) && has_kind(
            m,
            "registered"@,
        ) && out == Outcome::Paired(PairResult { client_key: m.client_key->0 })),
        out is Send ==> (s matches Session::Authenticating { id, .. } && addressed_to(m, id@)
            && has_kind(m, "registered"@)),
        s matches Session::Authenticating { request, .. } ==> (out matches Outcome::Send(
            OutgoingMessage::Request { id: rid, uri, payload },
        ) ==> uri == request.uri && payload == request.payload && is_message_id(rid@, request.name@)
            && next == (Session::AwaitingResponse { id: rid, name: request.name })),
        s matches Session::Pairing { id } ==> (addressed_to(m, id@) && has_kind(m, "error"@) ==> next
            == Session::Finished && out == Outcome::Failed(LgtvctlError::Protocol(m.text))),
        s matches Session::Authenticating { id, .. } ==> (addressed_to(m, id@) && has_kind(
            m,
            "error"@,
        ) ==> next == Session::Finished && out == Outcome::Failed(LgtvctlError::Protocol(m.text))),
        s matches Session::AwaitingResponse { id, .. } ==> (addressed_to(m, id@) && has_kind(
            m,
            "error"@,
        ) ==> next == Session::Finished && out == Outcome::Failed(LgtvctlError::Protocol(m.text))),
{
    reveal_strlit("error");
    reveal_strlit("response");
    reveal_strlit("registered");
    assert("error"@.len() != "response"@.len());
    assert("error"@.len() != "registered"@.len());
}

} // verus!
